//! Round-trip tests of the instruction codec through the
//! `Instruction::encode` / `Instruction::decode` pair.

use dmg_core::instruction::Instruction;
use dmg_core::instruction::Instruction::{
    LD, LDImm, LDFromHLInd, LDToHLInd, LDToHlIndImm, LDFromBCIndToA, LDFromDEIndToA,
    LDToBCIndFromA, LDToDEIndFromA, LDFromImmIndToA, LDToImmIndFromA, LDToAFromCInd,
    LDFromAToCInd, LDFromImmIndToA8, LDToImmIndFromA8, LDFromHLIndDecToA, LDToHLIndDecFromA,
    LDFromHLIndIncToA, LDToHLIndIncFromA, LDImm16, LDToImmIndFromSP, LDSPFromHL,
    PUSH, POP, LDHLFromAdjustedSP, ADD, ADDHLInd, ADDImm, ADDC, ADDCHLInd, ADDCImm,
    SUB, SUBHLInd, SUBImm, SUBC, SUBCHLInd, SUBCImm, CP, CPHLInd, CPImm, INC,
    INCHLInd, DEC, DECHLInd, AND, ANDHLInd, ANDImm, OR, ORHLInd, ORImm, XOR,
    XORHLInd, XORImm, CCF, SCF, DAA, CPL, INC16, DEC16, ADDHL, ADDSPImm, RLCA,
    RRCA, RRA, RLA, RLCR, RRCR, RLCHLInd, RRCHLInd, RLR, RLHLInd, RRR, RRHLInd,
    SRAR, SRAHLInd, SLAR, SLAHLInd, SRLR, SRLHLInd, SWAPR, SWAPHLInd, BITR, BITHLInd,
    RESETR, RESETHLInd, SETR, SETHLInd, NOP, JP, JPHL, JPCC, JR, JRCC, CALL,
    CALLCC, RET, RETCC, RETI, RST, HALT, STOP, DI, EI,
};
use dmg_core::operands::{FlowCondition, R16Operand, R16StkOperand, R8Operand};
use dmg_core::registers::{Register, Register16};

fn assert_decode(instruction: Instruction, expected_size: u16) {
    let [byte1, byte2, byte3] = Instruction::encode(instruction.clone());
    let (decoded_instr, decoded_size) =
        Instruction::decode(byte1, byte2, byte3).expect("legal instruction must decode");
    assert_eq!(
        decoded_instr, instruction,
        "Instruction mismatch for 0x{:02X} 0x{:02X} 0x{:02X}",
        byte1, byte2, byte3
    );
    assert_eq!(
        decoded_size, expected_size,
        "Size mismatch for 0x{:02X} 0x{:02X} 0x{:02X}",
        byte1, byte2, byte3
    );
}

#[test]
fn test_decode_cb() {
    let expected_size = 2;

    let operands_r8 = [
        Register::A,
        Register::B,
        Register::C,
        Register::D,
        Register::E,
        Register::H,
        Register::L,
    ];

    for reg in operands_r8 {
        let instructions = [
            RLCR(reg.clone()),
            RRCR(reg.clone()),
            RLR(reg.clone()),
            RRR(reg.clone()),
            SLAR(reg.clone()),
            SRAR(reg.clone()),
            SWAPR(reg.clone()),
            SRLR(reg.clone()),
        ];

        for instruction in instructions {
            assert_decode(instruction, expected_size);
        }
    }

    let instructions = [
        RLCHLInd(),
        RRCHLInd(),
        RLHLInd(),
        RRHLInd(),
        SLAHLInd(),
        SRAHLInd(),
        SWAPHLInd(),
        SRLHLInd(),
    ];

    for instruction in instructions {
        assert_decode(instruction, expected_size);
    }

    let operands_r8 = [
        Register::A,
        Register::B,
        Register::C,
        Register::D,
        Register::E,
        Register::H,
        Register::L,
    ];

    for bit_index in 0..=7 {
        for reg in &operands_r8 {
            let instructions = [
                BITR(bit_index, reg.clone()),
                SETR(bit_index, reg.clone()),
                RESETR(bit_index, reg.clone()),
            ];

            for instruction in instructions {
                assert_decode(instruction, expected_size);
            }
        }

        let instructions = [
            BITHLInd(bit_index),
            SETHLInd(bit_index),
            RESETHLInd(bit_index),
        ];

        for instruction in instructions {
            assert_decode(instruction, expected_size);
        }
    }
}

#[test]
fn instruction_test_decode_block_0() {
    // 1 byte, no params instructions
    {
        let expected_size = 1;
        let instructions = [
            NOP(),
            RLCA(),
            RRCA(),
            RLA(),
            RRA(),
            DAA(),
            CPL(),
            SCF(),
            CCF(),
        ];

        for instruction in instructions {
            assert_decode(instruction, expected_size);
        }
    }

    // Inc/Dec 8bit
    {
        let expected_size = 1;

        for operand in 0..=7 {
            let r8_operand = R8Operand::from_byte(operand);

            match r8_operand {
                R8Operand::HLInd => {
                    let instruction = INCHLInd();
                    assert_decode(instruction, expected_size);

                    let instruction = DECHLInd();
                    assert_decode(instruction, expected_size);
                }
                _ => {
                    let register = Register::from_r8_operand(r8_operand);

                    let instruction = INC(register.clone());
                    assert_decode(instruction, expected_size);

                    let instruction = DEC(register);
                    assert_decode(instruction, expected_size);
                }
            }
        }
    }

    // Stop
    {
        assert_decode(STOP(), 2);
    }

    // LD r, n
    {
        let expected_size = 2;

        for operand in 0..=7 {
            let r8_operand = R8Operand::from_byte(operand);

            match r8_operand {
                R8Operand::HLInd => {
                    let random_u8: u8 = 233;
                    let instruction = LDToHlIndImm(random_u8);
                    assert_decode(instruction, expected_size);
                }
                _ => {
                    let register = Register::from_r8_operand(r8_operand);
                    let random_u8: u8 = 201;
                    let instruction = LDImm(register.clone(), random_u8);
                    assert_decode(instruction, expected_size);
                }
            }
        }
    }

    // jump
    {
        let expected_size = 2;

        let random_u8 = 104;
        let instruction = JR(random_u8);

        assert_decode(instruction, expected_size);

        for operand in 0..=3 {
            let cond = FlowCondition::from_byte(operand);

            let random_u8 = -80;
            let instruction = JRCC(cond, random_u8);
            assert_decode(instruction, expected_size);
        }
    }

    // inc/dec/addhl 16
    {
        let expected_size = 1;

        for operand in 0..=3 {
            let r16_operand = R16Operand::from_byte(operand);
            let register_16 = Register16::from_r16_operand(r16_operand);

            let instructions = [
                INC16(register_16.clone()),
                DEC16(register_16.clone()),
                ADDHL(register_16.clone()),
            ];

            for instruction in instructions {
                assert_decode(instruction, expected_size);
            }
        }
    }

    // ld [imm16], sp/ld rr, nn
    {
        let expected_size = 3;

        for operand in 0..=3 {
            let r16_operand = R16Operand::from_byte(operand);
            let register_16 = Register16::from_r16_operand(r16_operand);

            let instruction = LDImm16(register_16, 32450);
            assert_decode(instruction, expected_size);
        }

        let instruction = LDToImmIndFromSP(12450);
        assert_decode(instruction, expected_size);
    }

    // ld [r16mem], a/ld a, [r16mem]
    {
        let expected_size = 1;

        let instruction = LDToBCIndFromA();
        assert_decode(instruction, expected_size);

        let instruction = LDToDEIndFromA();
        assert_decode(instruction, expected_size);

        let instruction = LDToHLIndIncFromA();
        assert_decode(instruction, expected_size);

        let instruction = LDToHLIndDecFromA();
        assert_decode(instruction, expected_size);

        let instruction = LDFromBCIndToA();
        assert_decode(instruction, expected_size);

        let instruction = LDFromDEIndToA();
        assert_decode(instruction, expected_size);

        let instruction = LDFromHLIndIncToA();
        assert_decode(instruction, expected_size);

        let instruction = LDFromHLIndDecToA();
        assert_decode(instruction, expected_size);
    }
}

#[test]
fn instruction_test_decode_block_1() {
    let expected_size = 1;

    let operands_r8 = [
        Register::A,
        Register::B,
        Register::C,
        Register::D,
        Register::E,
        Register::H,
        Register::L,
    ];

    for register_source in &operands_r8 {
        for register_dest in &operands_r8 {
            let instruction = LD(register_dest.clone(), register_source.clone());
            assert_decode(instruction, expected_size);
        }

        let instruction = LDToHLInd(register_source.clone());
        assert_decode(instruction, expected_size);
    }

    let instruction = HALT();
    assert_decode(instruction, expected_size);
}

#[test]
fn instruction_test_decode_block_2() {
    let expected_size = 1;

    let operands_r8 = [
        Register::A,
        Register::B,
        Register::C,
        Register::D,
        Register::E,
        Register::H,
        Register::L,
    ];

    for reg in operands_r8 {
        let instructions = [
            ADD(reg.clone()),
            ADDC(reg.clone()),
            SUB(reg.clone()),
            SUB(reg.clone()),
            AND(reg.clone()),
            XOR(reg.clone()),
            OR(reg.clone()),
            CP(reg.clone()),
        ];

        for instruction in instructions {
            assert_decode(instruction, expected_size);
        }
    }

    let instructions = [
        ADDHLInd(),
        ADDCHLInd(),
        SUBHLInd(),
        SUBCHLInd(),
        ANDHLInd(),
        XORHLInd(),
        ORHLInd(),
        CPHLInd(),
    ];

    for instruction in instructions {
        assert_decode(instruction, expected_size);
    }
}

#[test]
fn instruction_test_decode_block_3() {
    // test 1 byte, no params instructions
    {
        let expected_size = 1;
        let instructions = [
            DI(),
            EI(),
            LDSPFromHL(),
            LDFromAToCInd(),
            LDToAFromCInd(),
            RET(),
            RETI(),
            JPHL(),
        ];

        for instruction in instructions {
            assert_decode(instruction, expected_size);
        }
    }

    // 8bit imm
    {
        let expected_size = 2;

        let numbers: [u8; 4] = [200, 127, 0, 50];

        for number in numbers {
            let instructions = [
                ADDImm(number),
                ADDCImm(number),
                SUBImm(number),
                SUBCImm(number),
                ANDImm(number),
                ORImm(number),
                XORImm(number),
                CPImm(number),
                ADDSPImm(number as i8),
                LDHLFromAdjustedSP(number as i8),
                LDFromImmIndToA8(number),
                LDToImmIndFromA8(number),
            ];

            for instruction in instructions {
                assert_decode(instruction, expected_size);
            }
        }
    }

    // Stack
    {
        let expected_size = 1;

        for operand in 0..=3 {
            let r16stk_operand = R16StkOperand::from_byte(operand);
            let register_16 = Register16::from_r16stk_operand(r16stk_operand);

            let instructions = [POP(register_16.clone()), PUSH(register_16.clone())];

            for instruction in instructions {
                assert_decode(instruction, expected_size);
            }
        }
    }

    // reset
    {
        let expected_size = 1;
        let instruction = RST(7);
        assert_decode(instruction, expected_size);
    }

    // ret cond
    {
        let expected_size = 1;

        for operand in 0..=3 {
            let cond = FlowCondition::from_byte(operand);
            let instruction = RETCC(cond);
            assert_decode(instruction, expected_size);
        }
    }

    // 16-bit cond
    {
        let expected_size = 3;

        for operand in 0..=3 {
            let cond = FlowCondition::from_byte(operand);
            let instructions = [JPCC(cond.clone(), 33402), CALLCC(cond.clone(), 10490)];

            for instruction in instructions {
                assert_decode(instruction, expected_size);
            }
        }
    }

    // 16-bit absolute
    {
        let expected_size = 3;

        let instructions = [
            JP(33402),
            CALL(10490),
            LDFromImmIndToA(23400),
            LDToImmIndFromA(23400),
        ];

        for instruction in instructions {
            assert_decode(instruction, expected_size);
        }
    }
}

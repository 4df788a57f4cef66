//! Direct-execution tests of the CB-prefixed bit, shift and rotate
//! instructions, and one full fetch/decode/execute pass over SET.

use dmg_core::bus::Bus;
use dmg_core::cpu::Cpu;
use dmg_core::instruction::Instruction;
use dmg_core::operands::R8Operand;
use dmg_core::registers::{Flag, Register, Register16};

fn execute_instruction(instruction: Instruction, instruction_size: u8, cpu: &mut Cpu, bus: &mut Bus) {
    cpu.step(instruction_size as u16);

    cpu.execute(instruction, bus);
}

fn preload_hl(bus: &mut Bus, cpu: &Cpu, value: u8) {
    let hl_addr = cpu.get_register_16(Register16::HL);
    bus.write_to_8b(hl_addr, value);
}

fn assert_reg(cpu: &Cpu, reg: Register, expected: u8) {
    assert_eq!(
        cpu.get_register(reg),
        expected,
        "{:?} expected to be {:#04X}",
        reg,
        expected
    );
}

fn assert_mem(bus: &Bus, addr: u16, expected: u8) {
    assert_eq!(
        bus.read_from_8b(addr),
        expected,
        "memory at {:#04X} expected to be {:#04X}",
        addr,
        expected
    );
}

#[test]
fn test_cb_set_operations() {
    let mut cpu = Cpu::new_default();
    let mut bus = Bus::new();
    let instruction_size = 2;

    let instruction = Instruction::SETR(1, Register::E);
    execute_instruction(instruction, instruction_size, &mut cpu, &mut bus);
    assert_reg(&cpu, Register::E, 0b0000_0010);

    let instruction = Instruction::SETR(0, Register::D);
    execute_instruction(instruction, instruction_size, &mut cpu, &mut bus);
    assert_reg(&cpu, Register::D, 0b0000_0001);

    let instruction = Instruction::SETR(3, Register::A);
    execute_instruction(instruction, instruction_size, &mut cpu, &mut bus);
    assert_reg(&cpu, Register::A, 0b0000_1000);

    let hl_addr = cpu.get_register_16(Register16::HL);
    preload_hl(&mut bus, &cpu, 0xCB);

    let instruction = Instruction::SETHLInd(2);
    execute_instruction(instruction, instruction_size, &mut cpu, &mut bus);
    assert_mem(&bus, hl_addr, 0xCB | 0b0000_0100);

    // Ensure other registers remain unchanged.
    assert_reg(&cpu, Register::A, 0b0000_1000);
    assert_reg(&cpu, Register::E, 0b0000_0010);
    assert_reg(&cpu, Register::D, 0b0000_0001);
}

#[test]
fn test_cb_res_operations() {
    let mut cpu = Cpu::new_default();
    let mut bus = Bus::new();
    let instruction_size = 2;

    let set_instruction = Instruction::SETR(1, Register::E);
    execute_instruction(set_instruction, instruction_size, &mut cpu, &mut bus);
    assert_reg(&cpu, Register::E, 0b0000_0010);

    let res_instruction = Instruction::RESETR(1, Register::E);
    execute_instruction(res_instruction, instruction_size, &mut cpu, &mut bus);
    assert_reg(&cpu, Register::E, 0);

    let hl_addr = cpu.get_register_16(Register16::HL);
    preload_hl(&mut bus, &cpu, 0xCB);

    let res_instruction = Instruction::RESETHLInd(3);
    execute_instruction(res_instruction, instruction_size, &mut cpu, &mut bus);
    assert_mem(&bus, hl_addr, 0xC3);
}

#[test]
fn test_cb_bit_operations() {
    let mut cpu = Cpu::new_default();
    let mut bus = Bus::new();
    let instruction_size = 2;

    cpu.set_register(Register::C, 0b0010_0000);

    let bit_instruction = Instruction::BITR(1, Register::C);
    execute_instruction(bit_instruction, instruction_size, &mut cpu, &mut bus);
    assert!(
        cpu.get_flag(Flag::Zero),
        "BIT 1 in C should set the zero flag"
    );

    let bit_instruction = Instruction::BITR(5, Register::C);
    execute_instruction(bit_instruction, instruction_size, &mut cpu, &mut bus);
    assert!(
        !cpu.get_flag(Flag::Zero),
        "BIT 5 in C should reset the zero flag"
    );

    preload_hl(&mut bus, &cpu, 0b0000_1000);

    let bit_instruction = Instruction::BITHLInd(3);
    execute_instruction(bit_instruction, instruction_size, &mut cpu, &mut bus);
    assert!(
        !cpu.get_flag(Flag::Zero),
        "BIT 3 in [HL] should reset the zero flag"
    );
}

#[test]
fn test_cb_swap_operations() {
    let mut cpu = Cpu::new_default();
    let mut bus = Bus::new();
    let instruction_size = 2;

    cpu.set_register(Register::E, 0b1111_0000);

    let swap_instruction = Instruction::SWAPR(Register::E);
    execute_instruction(swap_instruction, instruction_size, &mut cpu, &mut bus);
    assert_reg(&cpu, Register::E, 0b0000_1111);

    let hl_addr = cpu.get_register_16(Register16::HL);
    preload_hl(&mut bus, &cpu, 0xCB);

    let swap_instruction = Instruction::SWAPHLInd();
    execute_instruction(swap_instruction, instruction_size, &mut cpu, &mut bus);
    assert_mem(&bus, hl_addr, 0xBC);
}

#[test]
fn test_cb_srl_operations() {
    let mut cpu = Cpu::new_default();
    let mut bus = Bus::new();
    let instruction_size = 2;

    cpu.set_register(Register::B, 0b1111_0000);

    let srl_instruction = Instruction::SRLR(Register::B);
    execute_instruction(srl_instruction, instruction_size, &mut cpu, &mut bus);
    let original_lsb = (0b1111_0000 & 1) != 0;
    assert_reg(&cpu, Register::B, 0b0111_1000);
    assert_eq!(
        cpu.get_flag(Flag::Carry),
        original_lsb,
        "Carry flag should match original LSB"
    );

    let hl_addr = cpu.get_register_16(Register16::HL);
    preload_hl(&mut bus, &cpu, 0b1100_1011);

    let srl_instruction = Instruction::SRLHLInd();
    execute_instruction(srl_instruction, instruction_size, &mut cpu, &mut bus);
    assert_mem(&bus, hl_addr, 0b0110_0101);
    assert!(
        cpu.get_flag(Flag::Carry),
        "SRL [HL] should set the carry flag"
    );
}

#[test]
fn test_cb_rrc_operations() {
    let mut cpu = Cpu::new_default();
    let mut bus = Bus::new();
    let instruction_size = 2;

    cpu.set_register(Register::E, 0b1111_0000);

    let rrc_instruction = Instruction::RRCR(Register::E);
    execute_instruction(rrc_instruction, instruction_size, &mut cpu, &mut bus);
    assert_reg(&cpu, Register::E, 0b0111_1000);
    assert!(
        !cpu.get_flag(Flag::Carry),
        "RRC on E should not set the carry flag"
    );

    let hl_addr = cpu.get_register_16(Register16::HL);
    preload_hl(&mut bus, &cpu, 0b1110_0101);

    let rrc_instruction = Instruction::RRCHLInd();
    execute_instruction(rrc_instruction, instruction_size, &mut cpu, &mut bus);
    assert_mem(&bus, hl_addr, 0b1111_0010);
    assert!(
        cpu.get_flag(Flag::Carry),
        "RRC [HL] should set the carry flag"
    );
}

#[test]
fn test_cb_rlc_operations() {
    let mut cpu = Cpu::new_default();
    let mut bus = Bus::new();
    let instruction_size = 2;

    cpu.set_register(Register::A, 0b0000_1111);

    let rlc_instruction = Instruction::RLCR(Register::A);
    execute_instruction(rlc_instruction, instruction_size, &mut cpu, &mut bus);
    assert_reg(&cpu, Register::A, 0b0001_1110);
    assert!(
        !cpu.get_flag(Flag::Carry),
        "RLC on A should not set the carry flag"
    );

    let hl_addr = cpu.get_register_16(Register16::HL);
    preload_hl(&mut bus, &cpu, 0b0010_1111);
    // RLC [HL] (original opcode: the RLC row with the [HL] operand)
    let rlc_instruction = Instruction::RLCHLInd();
    execute_instruction(rlc_instruction, instruction_size, &mut cpu, &mut bus);
    assert_mem(&bus, hl_addr, 0b0101_1110);
    assert!(
        !cpu.get_flag(Flag::Carry),
        "RLC [HL] should not set the carry flag"
    );
}

#[test]
fn test_cb_sra_operations() {
    let mut cpu = Cpu::new_default();
    let mut bus = Bus::new();
    let instruction_size = 2;

    cpu.set_register(Register::D, 0b1111_0000);

    let sra_instruction = Instruction::SRAR(Register::D);
    execute_instruction(sra_instruction, instruction_size, &mut cpu, &mut bus);
    let original_lsb = (0b1111_0000 & 1) != 0;
    assert_reg(&cpu, Register::D, 0b1111_1000);
    assert_eq!(
        cpu.get_flag(Flag::Carry),
        original_lsb,
        "SRA D carry flag mismatch"
    );

    let hl_addr = cpu.get_register_16(Register16::HL);
    preload_hl(&mut bus, &cpu, 0b1110_0101);

    let sra_instruction = Instruction::SRAHLInd();
    execute_instruction(sra_instruction, instruction_size, &mut cpu, &mut bus);
    assert_mem(&bus, hl_addr, 0b1111_0010);
    assert!(
        cpu.get_flag(Flag::Carry),
        "SRA [HL] should set the carry flag"
    );
}

#[test]
fn test_cb_sla_operations() {
    let mut cpu = Cpu::new_default();
    let mut bus = Bus::new();
    let instruction_size = 2;

    cpu.set_register(Register::E, 0b1111_0000);

    let sla_instruction = Instruction::SLAR(Register::E);
    execute_instruction(sla_instruction, instruction_size, &mut cpu, &mut bus);
    let original_msb = (0b1111_0000 & 0x80) != 0;
    assert_reg(&cpu, Register::E, 0b1110_0000);
    assert_eq!(
        cpu.get_flag(Flag::Carry),
        original_msb,
        "SLA E carry flag mismatch"
    );

    let hl_addr = cpu.get_register_16(Register16::HL);
    preload_hl(&mut bus, &cpu, 0b0010_1011);

    let sla_instruction = Instruction::SLAHLInd();
    execute_instruction(sla_instruction, instruction_size, &mut cpu, &mut bus);
    assert_mem(&bus, hl_addr, 0b0101_0110);
    assert!(
        !cpu.get_flag(Flag::Carry),
        "SLA [HL] should not set the carry flag"
    );
}

#[test]
fn test_cb_rr_operations() {
    let mut cpu = Cpu::new_default();
    let mut bus = Bus::new();
    let instruction_size = 2;

    cpu.set_register(Register::E, 0b1111_0000);

    let rr_instruction = Instruction::RRR(Register::E);
    execute_instruction(rr_instruction, instruction_size, &mut cpu, &mut bus);
    assert_reg(&cpu, Register::E, 0b0111_1000);
    assert_eq!(
        cpu.get_flag(Flag::Carry),
        false,
        "RR on E should not set the carry flag"
    );

    let hl_addr = cpu.get_register_16(Register16::HL);
    preload_hl(&mut bus, &cpu, 0b1110_0101);

    let rr_instruction = Instruction::RRHLInd();
    execute_instruction(rr_instruction, instruction_size, &mut cpu, &mut bus);
    assert_mem(&bus, hl_addr, 0b0111_0010);
    assert!(
        cpu.get_flag(Flag::Carry),
        "RR [HL] should set the carry flag"
    );
}

#[test]
fn test_cb_rl_operations() {
    let mut cpu = Cpu::new_default();
    let mut bus = Bus::new();
    let instruction_size = 2;

    let instruction = Instruction::RLR(Register::A);
    cpu.set_register(Register::A, 0b0000_1111);
    execute_instruction(instruction, instruction_size, &mut cpu, &mut bus);
    assert_reg(&cpu, Register::A, 0b0001_1110);
    assert!(
        !cpu.get_flag(Flag::Carry),
        "RL on A gave out wrong Carry value"
    );

    let instruction = Instruction::RLHLInd();
    let hl_addr = cpu.get_register_16(Register16::HL);
    preload_hl(&mut bus, &cpu, 0b0010_1111);
    execute_instruction(instruction, instruction_size, &mut cpu, &mut bus);
    assert_mem(&bus, hl_addr, 0b0101_1110);
    assert!(
        !cpu.get_flag(Flag::Carry),
        "RL [HL] gave out wrong Carry value"
    );
}

#[test]
fn test_cpu_cb_set() {
    let mut cpu = Cpu::new_default();
    let mut bus = Bus::new();

    bus.write_to_8b(0, 0xCB);
    bus.write_to_8b(1, 0b11_001_000 | R8Operand::to_byte(&R8Operand::E)); // set 1, e

    cpu.clock(&mut bus).expect("legal opcode");

    assert_eq!(cpu.get_register(Register::E), 2);

    bus.write_to_8b(2, 0xCB);
    bus.write_to_8b(3, 0b11_000_000 | R8Operand::to_byte(&R8Operand::D)); // set 0, d

    cpu.clock(&mut bus).expect("legal opcode");

    assert_eq!(cpu.get_register(Register::D), 1);

    bus.write_to_8b(4, 0xCB);
    bus.write_to_8b(5, 0b11_011_000 | R8Operand::to_byte(&R8Operand::A)); // set 3, a

    cpu.clock(&mut bus).expect("legal opcode");

    assert_eq!(cpu.get_register(Register::A), 8);

    bus.write_to_8b(6, 0xCB);
    bus.write_to_8b(7, 0b11_010_000 | R8Operand::to_byte(&R8Operand::HLInd)); // set 2, [hl]

    cpu.clock(&mut bus).expect("legal opcode");

    let value_hl_ind = bus.read_from_8b(cpu.get_register_16(Register16::HL));

    assert_eq!(value_hl_ind, 0xCB | 0b000_0100);

    // To make sure their values didn't change
    assert_eq!(cpu.get_register(Register::A), 8);
    assert_eq!(cpu.get_register(Register::E), 2);
    assert_eq!(cpu.get_register(Register::D), 1);
}

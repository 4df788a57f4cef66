//! Edge cases: unused opcodes, wrapping PC arithmetic, RETI's immediate
//! interrupt enable, the DAA subtract path, and the flat memory type.

use dmg_core::cpu::Cpu;
use dmg_core::bus::Bus;
use dmg_core::decoder::decode;
use dmg_core::instruction::Instruction;
use dmg_core::memory::Memory;
use dmg_core::registers::{Flag, Register16};

#[test]
fn unused_opcodes_do_not_decode() {
    for opcode in [0xD3u8, 0xDB, 0xDD, 0xE3, 0xE4, 0xEB, 0xEC, 0xED, 0xF4, 0xFC, 0xFD] {
        assert!(
            decode(opcode, 0, 0).is_none(),
            "{:#04X} is an unused opcode",
            opcode
        );
    }
    // Every CB pattern is legal.
    for second in 0..=255u8 {
        assert!(decode(0xCB, second, 0).is_some());
    }
}

#[test]
fn jr_with_negative_displacement() {
    let mut cpu = Cpu::new_default();
    let mut bus = Bus::new();
    cpu.pc = 0x0150;
    bus.write_to_8b(0x0150, 0x18); // JR -2: loops onto itself
    bus.write_to_8b(0x0151, 0xFE);
    let cycles = cpu.clock(&mut bus).expect("JR");
    assert_eq!(cycles, 3);
    assert_eq!(cpu.pc, 0x0150, "PC moved past the 2-byte JR, then back by 2");
}

#[test]
fn jr_cc_not_taken_costs_less() {
    let mut cpu = Cpu::new_default();
    let mut bus = Bus::new();
    bus.write_to_8b(0, 0x20); // JR NZ, +5
    bus.write_to_8b(1, 0x05);
    cpu.set_flag(Flag::Zero, true); // NZ fails
    let cycles = cpu.clock(&mut bus).expect("JR NZ");
    assert_eq!(cycles, 2);
    assert_eq!(cpu.pc, 2, "branch not taken");
}

#[test]
fn reti_enables_interrupts_immediately() {
    let mut cpu = Cpu::new_default();
    let mut bus = Bus::new();
    cpu.sp = 0xFFFC;
    bus.write_to_8b(0xFFFC, 0x00);
    bus.write_to_8b(0xFFFD, 0x02); // return to 0x0200
    bus.write_to_8b(0, 0xD9); // RETI
    bus.write_to_8b(0xFFFF, 0x01);
    bus.write_to_8b(0xFF0F, 0x01); // interrupt already waiting

    let cycles = cpu.clock(&mut bus).expect("RETI");
    assert_eq!(cycles, 4);
    assert!(cpu.ime, "RETI sets IME at once, without the EI delay");
    assert_eq!(cpu.pc, 0x0200);

    let cycles = cpu.clock(&mut bus).expect("dispatch");
    assert_eq!(cycles, 5, "the very next step can dispatch");
    assert_eq!(cpu.pc, 0x0040);
}

#[test]
fn daa_adjusts_bcd_difference() {
    let mut cpu = Cpu::new_default();
    cpu.a = 0x42;
    cpu.sub_imm(0x15);
    assert_eq!(cpu.a, 0x2D);
    cpu.daa();
    assert_eq!(cpu.a, 0x27, "0x42 - 0x15 adjusts to BCD 27");
    assert!(cpu.get_flag(Flag::Sub), "DAA keeps N after a subtraction");
}

#[test]
fn ld_hl_from_adjusted_sp_flags() {
    let mut cpu = Cpu::new_default();
    cpu.sp = 0x000F;
    let cycles = cpu.ld_hl_from_adjusted_sp(1);
    assert_eq!(cpu.get_register_16(Register16::HL), 0x0010);
    assert_eq!(cpu.sp, 0x000F, "SP itself is untouched");
    assert!(cpu.get_flag(Flag::HalfCarry));
    assert!(!cpu.get_flag(Flag::Carry));
    assert!(!cpu.get_flag(Flag::Zero));
    assert_eq!(cycles, 3);
}

#[test]
fn memory_word_access_is_little_endian() {
    let mut memory = Memory::new();
    memory.write_to_16b(0x8000, 0xBEEF);
    assert_eq!(memory.read_from_8b(0x8000), 0xEF);
    assert_eq!(memory.read_from_8b(0x8001), 0xBE);
    assert_eq!(memory.read_from_16b(0x8000), 0xBEEF);

    // The second byte of a word at the top of memory wraps to zero.
    memory.write_to_16b(0xFFFF, 0x1234);
    assert_eq!(memory.read_from_8b(0xFFFF), 0x34);
    assert_eq!(memory.read_from_8b(0x0000), 0x12);
}

#[test]
fn memory_load_rom_ignores_overflow() {
    let mut memory = Memory::new();
    let mut image = vec![0xAAu8; 0x10000];
    image.push(0xBB); // one byte past the address space
    memory.load_rom(image);
    assert_eq!(memory.read_from_8b(0xFFFF), 0xAA);
    assert_eq!(memory.read_from_8b(0x0000), 0xAA);
}

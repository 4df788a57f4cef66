//! End-to-end scenarios: flag formulas on concrete values, the stack and
//! interrupt laws on a running machine, the timer law, serial output,
//! and the HALT and EI subtleties.

use dmg_core::bus::Bus;
use dmg_core::cpu::Cpu;
use dmg_core::gameboy::Gameboy;
use dmg_core::instruction::Instruction;
use dmg_core::interrupt::Interrupt;
use dmg_core::registers::{Flag, Register, Register16};
use dmg_core::timer::Timer;

#[test]
fn add_with_half_carry() {
    let mut cpu = Cpu::new_default();
    cpu.a = 0x0F;
    let cycles = cpu.add_imm(0x01);
    assert_eq!(cpu.a, 0x10);
    assert!(!cpu.get_flag(Flag::Zero));
    assert!(!cpu.get_flag(Flag::Sub));
    assert!(cpu.get_flag(Flag::HalfCarry));
    assert!(!cpu.get_flag(Flag::Carry));
    assert_eq!(cycles, 2);
}

#[test]
fn sbc_with_carry_in() {
    let mut cpu = Cpu::new_default();
    cpu.a = 0x10;
    cpu.set_flag(Flag::Carry, true);
    let cycles = cpu.sub_c_imm(0x01);
    assert_eq!(cpu.a, 0x0E);
    assert!(!cpu.get_flag(Flag::Zero));
    assert!(cpu.get_flag(Flag::Sub));
    assert!(cpu.get_flag(Flag::HalfCarry));
    assert!(!cpu.get_flag(Flag::Carry));
    assert_eq!(cycles, 2);
}

#[test]
fn swap_register_flags() {
    let mut cpu = Cpu::new_default();
    cpu.e = 0xF0;
    let mut bus = Bus::new();
    let cycles = cpu.execute(Instruction::SWAPR(Register::E), &mut bus);
    assert_eq!(cpu.e, 0x0F);
    assert!(!cpu.get_flag(Flag::Zero));
    assert!(!cpu.get_flag(Flag::Sub));
    assert!(!cpu.get_flag(Flag::HalfCarry));
    assert!(!cpu.get_flag(Flag::Carry));
    assert_eq!(cycles, 2);
}

#[test]
fn bit_on_hl_indirect() {
    let mut cpu = Cpu::new_default();
    let mut bus = Bus::new();
    cpu.h = 0x12;
    cpu.l = 0x34;
    cpu.set_flag(Flag::Carry, true);
    bus.write_to_8b(0x1234, 0x08);
    let cycles = cpu.execute(Instruction::BITHLInd(3), &mut bus);
    assert!(!cpu.get_flag(Flag::Zero));
    assert!(!cpu.get_flag(Flag::Sub));
    assert!(cpu.get_flag(Flag::HalfCarry));
    assert!(cpu.get_flag(Flag::Carry), "C must be preserved");
    assert_eq!(bus.read_from_8b(0x1234), 0x08, "memory unchanged");
    assert_eq!(cycles, 3);
}

#[test]
fn call_ret_round_trip() {
    let mut cpu = Cpu::new();
    let mut bus = Bus::new();
    assert_eq!(cpu.sp, 0xFFFE);
    assert_eq!(cpu.pc, 0x0100);
    bus.write_to_8b(0x0100, 0xCD); // CALL 0x0200
    bus.write_to_8b(0x0101, 0x00);
    bus.write_to_8b(0x0102, 0x02);
    bus.write_to_8b(0x0200, 0xC9); // RET

    let cycles = cpu.clock(&mut bus).expect("legal opcode");
    assert_eq!(cycles, 6);
    assert_eq!(cpu.sp, 0xFFFC);
    assert_eq!(bus.read_from_8b(0xFFFC), 0x03);
    assert_eq!(bus.read_from_8b(0xFFFD), 0x01);
    assert_eq!(cpu.pc, 0x0200);

    let cycles = cpu.clock(&mut bus).expect("legal opcode");
    assert_eq!(cycles, 4);
    assert_eq!(cpu.sp, 0xFFFE);
    assert_eq!(cpu.pc, 0x0103);
}

#[test]
fn push_then_pop_preserves_pair() {
    let mut cpu = Cpu::new_default();
    let mut bus = Bus::new();
    cpu.sp = 0xFFFE;
    cpu.set_register_16(Register16::BC, 0xBEEF);
    cpu.execute(Instruction::PUSH(Register16::BC), &mut bus);
    assert_eq!(cpu.sp, 0xFFFC, "PUSH drops SP by exactly two");
    cpu.set_register_16(Register16::BC, 0);
    cpu.execute(Instruction::POP(Register16::BC), &mut bus);
    assert_eq!(cpu.sp, 0xFFFE, "POP raises SP by exactly two");
    assert_eq!(cpu.get_register_16(Register16::BC), 0xBEEF);
}

#[test]
fn pop_af_masks_low_nibble() {
    let mut cpu = Cpu::new_default();
    let mut bus = Bus::new();
    cpu.sp = 0xFFFE;
    // Write an unmasked word on the stack by hand, then pop it into AF.
    bus.write_to_8b(0xFFFC, 0xFF);
    bus.write_to_8b(0xFFFD, 0x12);
    cpu.sp = 0xFFFC;
    cpu.execute(Instruction::POP(Register16::AF), &mut bus);
    assert_eq!(cpu.get_register_16(Register16::AF), 0x12F0);
    assert_eq!(cpu.get_register(Register::F), 0xF0);
}

#[test]
fn serial_emit() {
    let mut bus = Bus::new();
    bus.write_to_8b(0xFF01, 0x41); // SB = 'A'
    bus.write_to_8b(0xFF02, 0x81); // SC with bit 7 set
    assert_eq!(bus.read_from_8b(0xFF02), 0x01, "SC bit 7 cleared");
    let out = bus.take_serial_output();
    assert_eq!(out, vec![0x41]);
    assert_eq!(bus.take_serial_output(), Vec::<u8>::new());
}

#[test]
fn div_write_resets() {
    let mut bus = Bus::new();
    let mut timer = Timer::new();
    timer.tick(600, &mut bus);
    assert_eq!(bus.read_from_8b(0xFF04), 2, "600 cycles tick DIV twice");
    bus.write_to_8b(0xFF04, 0xAB);
    assert_eq!(bus.read_from_8b(0xFF04), 0, "user DIV write resets it");
}

#[test]
fn timer_law() {
    let mut bus = Bus::new();
    let mut timer = Timer::new();
    bus.write_to_8b(0xFF07, 0b101); // TAC: enabled, rate 16 (side effect bumps TIMA)
    bus.write_to_8b(0xFF05, 0x00); // TIMA back to 0
    bus.write_to_8b(0xFF06, 0x42); // TMA
    assert_eq!(bus.read_from_8b(0xFF04), 0); // DIV

    timer.tick(16 * 256, &mut bus);

    assert_eq!(bus.read_from_8b(0xFF05), 0x42, "TIMA wrapped once and reloaded from TMA");
    assert_eq!(
        bus.read_from_8b(0xFF0F) & 0x04,
        0x04,
        "timer interrupt raised"
    );
    assert_eq!(bus.read_from_8b(0xFF04), 16, "DIV ticked once per 256 cycles");
}

#[test]
fn timer_disabled_does_not_tick_tima() {
    let mut bus = Bus::new();
    let mut timer = Timer::new();
    // TAC bit 2 clear: whatever the rate bits say, TIMA stays.
    timer.tick(100_000, &mut bus);
    assert_eq!(bus.read_from_8b(0xFF05), 0);
    assert_eq!(bus.read_from_8b(0xFF0F), 0);
}

#[test]
fn interrupt_dispatch_law() {
    let mut cpu = Cpu::new_default();
    let mut bus = Bus::new();
    cpu.ime = true;
    cpu.sp = 0xFFFE;
    cpu.pc = 0x1234;
    bus.write_to_8b(0xFFFF, 0x01); // IE: VBlank
    bus.write_to_8b(0xFF0F, 0x01); // IF: VBlank pending

    let cycles = cpu.clock(&mut bus).expect("dispatch consumes no opcode");

    assert_eq!(cycles, 5);
    assert!(!cpu.ime);
    assert_eq!(bus.read_from_8b(0xFF0F), 0x00, "IF bit cleared");
    assert_eq!(bus.read_from_8b(0xFFFC), 0x34, "PC low byte at SP-2");
    assert_eq!(bus.read_from_8b(0xFFFD), 0x12, "PC high byte at SP-1");
    assert_eq!(cpu.sp, 0xFFFC);
    assert_eq!(cpu.pc, 0x0040, "VBlank handler vector");
}

#[test]
fn interrupt_priority_order() {
    let mut bus = Bus::new();
    bus.write_to_8b(0xFFFF, 0x1F);
    bus.write_to_8b(0xFF0F, 0x14); // Timer and Joypad pending
    assert_eq!(
        bus.get_interrupt(),
        Some((Interrupt::Timer, 0x50)),
        "Timer outranks Joypad"
    );
}

#[test]
fn ei_takes_effect_one_instruction_late() {
    let mut cpu = Cpu::new_default();
    let mut bus = Bus::new();
    bus.write_to_8b(0xFFFF, 0x01);
    bus.write_to_8b(0xFF0F, 0x01); // pending the whole time, but IME is off
    bus.write_to_8b(0, 0xFB); // EI
    bus.write_to_8b(1, 0x00); // NOP

    cpu.clock(&mut bus).expect("EI"); // executes EI; IME still off
    assert!(!cpu.ime);
    cpu.clock(&mut bus).expect("NOP"); // no dispatch yet: IME turns on after the check
    assert!(cpu.ime);
    assert_eq!(cpu.pc, 2);

    let cycles = cpu.clock(&mut bus).expect("dispatch");
    assert_eq!(cycles, 5, "interrupt dispatches on the step after NOP");
    assert_eq!(cpu.pc, 0x0040);
}

#[test]
fn halt_bug_fetches_next_byte_twice() {
    let mut cpu = Cpu::new_default();
    let mut bus = Bus::new();
    bus.write_to_8b(0xFFFF, 0x01);
    bus.write_to_8b(0xFF0F, 0x01); // pending with IME off at HALT time
    bus.write_to_8b(0, 0x76); // HALT
    bus.write_to_8b(1, 0x04); // INC B

    cpu.clock(&mut bus).expect("HALT");
    assert!(!cpu.halted, "halt bug: the CPU does not halt");

    cpu.clock(&mut bus).expect("INC B once");
    assert_eq!(cpu.b, 1);
    assert_eq!(cpu.pc, 1, "halt bug: PC did not advance past INC B");

    cpu.clock(&mut bus).expect("INC B again");
    assert_eq!(cpu.b, 2, "the byte after HALT executed twice");
    assert_eq!(cpu.pc, 2);
}

#[test]
fn halt_waits_for_interrupt() {
    let mut cpu = Cpu::new_default();
    let mut bus = Bus::new();
    bus.write_to_8b(0, 0x76); // HALT with nothing pending
    bus.write_to_8b(1, 0x04); // INC B

    cpu.clock(&mut bus).expect("HALT");
    assert!(cpu.halted);
    assert_eq!(cpu.clock(&mut bus).expect("halted step"), 1);
    assert_eq!(cpu.pc, 1, "no instruction executes while halted");

    bus.write_to_8b(0xFFFF, 0x01);
    bus.trigger_interrupt(Interrupt::VBlank);
    cpu.clock(&mut bus).expect("woken"); // IME off: wake without dispatch
    assert!(!cpu.halted);
    assert_eq!(cpu.b, 1, "execution resumed at the next instruction");
}

#[test]
fn illegal_opcode_is_reported() {
    let mut cpu = Cpu::new_default();
    let mut bus = Bus::new();
    cpu.pc = 0x0005;
    bus.write_to_8b(0x0005, 0xD3); // unused opcode

    let diagnostic = cpu.clock(&mut bus).expect_err("0xD3 is unused");
    assert_eq!(diagnostic.pc, 0x0005);
    assert_eq!(diagnostic.byte, 0xD3);
}

#[test]
fn daa_adjusts_bcd_sum() {
    let mut cpu = Cpu::new_default();
    cpu.a = 0x15;
    cpu.add_imm(0x27);
    assert_eq!(cpu.a, 0x3C);
    cpu.daa();
    assert_eq!(cpu.a, 0x42, "0x15 + 0x27 adjusts to BCD 42");
    assert!(!cpu.get_flag(Flag::Carry));
    assert!(!cpu.get_flag(Flag::HalfCarry), "DAA always clears H");
}

#[test]
fn add_hl_sets_half_carry_from_bit_11() {
    let mut cpu = Cpu::new_default();
    cpu.set_register_16(Register16::HL, 0x0FFF);
    cpu.set_register_16(Register16::BC, 0x0001);
    cpu.set_flag(Flag::Zero, true);
    let cycles = cpu.add_hl(Register16::BC);
    assert_eq!(cpu.get_register_16(Register16::HL), 0x1000);
    assert!(cpu.get_flag(Flag::Zero), "ADD HL preserves Z");
    assert!(cpu.get_flag(Flag::HalfCarry));
    assert!(!cpu.get_flag(Flag::Carry));
    assert_eq!(cycles, 2);
}

#[test]
fn add_sp_uses_unsigned_byte_for_flags() {
    let mut cpu = Cpu::new_default();
    cpu.sp = 0x00FF;
    let cycles = cpu.add_sp_imm(-1);
    assert_eq!(cpu.sp, 0x00FE);
    // -1 is the unsigned byte 0xFF: both the nibble and byte sums carry.
    assert!(cpu.get_flag(Flag::HalfCarry));
    assert!(cpu.get_flag(Flag::Carry));
    assert!(!cpu.get_flag(Flag::Zero));
    assert!(!cpu.get_flag(Flag::Sub));
    assert_eq!(cycles, 4);
}

#[test]
fn scf_and_ccf() {
    let mut cpu = Cpu::new_default();
    cpu.set_flag(Flag::Zero, true);
    cpu.scf();
    assert!(cpu.get_flag(Flag::Carry));
    assert!(!cpu.get_flag(Flag::Sub));
    assert!(!cpu.get_flag(Flag::HalfCarry));
    assert!(cpu.get_flag(Flag::Zero), "SCF preserves Z");
    cpu.ccf();
    assert!(!cpu.get_flag(Flag::Carry), "CCF complements C");
    assert!(cpu.get_flag(Flag::Zero), "CCF preserves Z");
}

#[test]
fn and_or_xor_flag_policy() {
    let mut cpu = Cpu::new_default();
    cpu.a = 0xF0;
    cpu.and_imm(0x0F);
    assert_eq!(cpu.a, 0x00);
    assert!(cpu.get_flag(Flag::Zero));
    assert!(cpu.get_flag(Flag::HalfCarry), "AND sets H");
    assert!(!cpu.get_flag(Flag::Sub));
    assert!(!cpu.get_flag(Flag::Carry));

    cpu.a = 0xF0;
    cpu.or_imm(0x0F);
    assert_eq!(cpu.a, 0xFF);
    assert!(!cpu.get_flag(Flag::HalfCarry), "OR clears H");
    assert!(!cpu.get_flag(Flag::Carry));

    cpu.xor_imm(0xFF);
    assert_eq!(cpu.a, 0x00);
    assert!(cpu.get_flag(Flag::Zero));
    assert!(!cpu.get_flag(Flag::HalfCarry), "XOR clears H");
}

#[test]
fn rotate_a_forms_always_clear_z() {
    let mut cpu = Cpu::new_default();
    cpu.a = 0x80;
    cpu.rlca();
    assert_eq!(cpu.a, 0x01);
    assert!(cpu.get_flag(Flag::Carry), "bit 7 went out");
    assert!(!cpu.get_flag(Flag::Zero), "RLCA never sets Z");
    cpu.a = 0x00;
    cpu.rlca();
    assert!(!cpu.get_flag(Flag::Zero), "even a zero result leaves Z clear");
}

#[test]
fn stop_behaves_as_halt() {
    let mut cpu = Cpu::new_default();
    let mut bus = Bus::new();
    bus.write_to_8b(0, 0x10); // STOP
    let cycles = cpu.clock(&mut bus).expect("STOP");
    assert_eq!(cycles, 1);
    assert!(cpu.halted);
    assert_eq!(cpu.pc, 2, "STOP is a two-byte instruction");
}

#[test]
fn machine_runs_serial_program() {
    // A tiny program: LD A,0x41; LDH [0x01],A (SB); LD A,0x81;
    // LDH [0x02],A (SC, emits); JR -2 forever.
    let mut gameboy = Gameboy::new();
    let mut rom: Vec<u8> = vec![0; 0x0200];
    let program: [u8; 10] = [0x3E, 0x41, 0xE0, 0x01, 0x3E, 0x81, 0xE0, 0x02, 0x18, 0xFE];
    for (i, byte) in program.iter().enumerate() {
        rom[0x0100 + i] = *byte;
    }
    gameboy.load_rom(rom);
    for _ in 0..6 {
        gameboy.step().expect("legal program");
    }
    let out = gameboy.take_serial_output();
    assert_eq!(out, vec![0x41], "the program emitted one 'A'");
}

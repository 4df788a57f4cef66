//! The machine: CPU, bus and timer wired together, advanced one step at
//! a time. The host owns the loop around `step` and prints whatever the
//! serial port emits.

use vstd::prelude::*;
use crate::bus::{Bus, BusView};
use crate::hw_registers::HwView;
use crate::cartridge::Cartridge;
use crate::cpu::{spec_clock_post, Cpu, IllegalOpcode};
use crate::memory::MEMORY_SIZE;
use crate::timer::{spec_tick_post, Timer};

verus! {

/// The whole machine. The CPU's reported machine cycles, multiplied by
/// four, clock the timer.
pub struct Gameboy {
    pub cpu: Cpu,
    pub bus: Bus,
    pub cartridge: Cartridge,
    pub timer: Timer,
}

impl Gameboy {
    pub fn new() -> (r: Gameboy)
        ensures
            r.cpu == (Cpu {
                a: 0x01,
                b: 0x00,
                c: 0x13,
                d: 0x00,
                e: 0xD8,
                f: 0xB0,
                h: 0x01,
                l: 0x4D,
                sp: 0xFFFE,
                pc: 0x0100,
                ime: true,
                ei_pending: false,
                halted: false,
                halt_bug: false,
            }),
            r.timer.spec_cycles() == 0,
            r.timer.spec_since_div() == 0,
            r.timer.spec_since_tima() == 0,
            forall|i: int| 0 <= i < MEMORY_SIZE ==> r.bus@.ram[i] == 0u8,
            r.bus@.ram.len() == MEMORY_SIZE,
            r.bus@.hw == (HwView {
                p1: 0, sb: 0, sc: 0, divider: 0, tima: 0, tma: 0, tac: 0, int_flag: 0,
                nr10: 0, nr11: 0, nr12: 0, nr13: 0, nr14: 0, nr21: 0, nr22: 0, nr23: 0,
                nr24: 0, nr30: 0, nr31: 0, nr32: 0, nr33: 0, nr34: 0, nr41: 0, nr42: 0,
                nr43: 0, nr44: 0, nr50: 0, nr51: 0, nr52: 0, lcdc: 0, stat: 0, scy: 0,
                scx: 0, ly: 0, lyc: 0, dma: 0, bgp: 0, obp0: 0, obp1: 0, wy: 0, wx: 0,
                int_enable: 0, serial: Seq::<u8>::empty(),
            }),
    {
        Gameboy {
            cpu: Cpu::new(),
            bus: Bus::new(),
            cartridge: Cartridge::new(),
            timer: Timer::new(),
        }
    }

    /// Copy a ROM image into the bus's RAM starting at address zero.
    pub fn load_rom(&mut self, data: Vec<u8>)
        ensures
            final(self).cpu == old(self).cpu,
            final(self).timer == old(self).timer,
            final(self).bus@.ram.len() == old(self).bus@.ram.len(),
            final(self).bus@.hw == old(self).bus@.hw,
            forall|i: int|
                0 <= i < MEMORY_SIZE ==> final(self).bus@.ram[i] == if i < data@.len() {
                    data@[i]
                } else {
                    old(self).bus@.ram[i]
                },
    {
        self.bus.load_rom(data);
    }

    /// One iteration of the host loop: clock the CPU once, then advance
    /// the timer by four clock cycles per machine cycle consumed. An
    /// illegal opcode at PC is reported instead of executed.
    pub fn step(&mut self) -> (r: Result<u8, IllegalOpcode>)
        ensures
            match r {
                Result::Ok(cycles) => exists|mid: BusView|
                    #[trigger] spec_clock_post(
                        old(self).cpu,
                        old(self).bus@,
                        final(self).cpu,
                        mid,
                        Result::Ok(cycles),
                    ) && spec_tick_post(
                        old(self).timer,
                        mid,
                        (cycles * 4) as u64,
                        final(self).timer,
                        final(self).bus@,
                    ),
                Result::Err(diagnostic) => spec_clock_post(
                    old(self).cpu,
                    old(self).bus@,
                    final(self).cpu,
                    final(self).bus@,
                    Result::Err(diagnostic),
                ) && final(self).timer == old(self).timer,
            },
            final(self).cartridge == old(self).cartridge,
    {
        match self.cpu.clock(&mut self.bus) {
            Result::Ok(cycles) => {
                let ghost mid: BusView = self.bus@;
                let instruction_c_cycles: u64 = (cycles as u64) * 4;
                self.timer.tick(instruction_c_cycles, &mut self.bus);
                proof {
                    assert(spec_clock_post(
                        old(self).cpu,
                        old(self).bus@,
                        self.cpu,
                        mid,
                        Result::Ok(cycles),
                    ));
                }
                Result::Ok(cycles)
            },
            Result::Err(diagnostic) => Result::Err(diagnostic),
        }
    }

    /// Hand the serial bytes emitted so far to the host, emptying the
    /// buffer.
    pub fn take_serial_output(&mut self) -> (r: Vec<u8>)
        ensures
            r@ == old(self).bus@.hw.serial,
            final(self).cpu == old(self).cpu,
            final(self).timer == old(self).timer,
            final(self).bus@ == (BusView {
                hw: HwView { serial: Seq::<u8>::empty(), ..old(self).bus@.hw },
                ..old(self).bus@
            }),
    {
        self.bus.take_serial_output()
    }
}

} // verus!

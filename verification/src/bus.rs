//! The memory bus: one read/write entry point that routes each address
//! either to flat RAM or to the hardware-register file.

use vstd::prelude::*;
use crate::hw_registers::{
    spec_hw_inc_div, spec_hw_read, spec_hw_reg_of_addr, spec_hw_write, spec_is_hw_addr,
    HwRegisterAddr, HwRegisters, HwView,
};
use crate::interrupt::{spec_get_interrupt, spec_interrupt_mask, Interrupt};
use crate::memory::{Memory, MEMORY_SIZE};
use crate::word::{spec_u16_from_le, spec_hi_byte, spec_lo_byte, wrap16};

verus! {

/// Mathematical state of the bus: the RAM bytes and the hardware-register
/// file (which includes the serial output emitted so far).
pub ghost struct BusView {
    pub ram: Seq<u8>,
    pub hw: HwView,
}

/// The byte a read of `addr` observes: a hardware register where one is
/// mapped, RAM otherwise.
pub open spec fn spec_bus_read8(b: BusView, addr: u16) -> u8 {
    if spec_is_hw_addr(addr) {
        spec_hw_read(b.hw, spec_hw_reg_of_addr(addr))
    } else {
        b.ram[addr as int]
    }
}

/// The bus state after a write of `value` to `addr`, including the
/// written register's side effect where a hardware register is mapped.
pub open spec fn spec_bus_write8(b: BusView, addr: u16, value: u8) -> BusView {
    if spec_is_hw_addr(addr) {
        BusView { hw: spec_hw_write(b.hw, spec_hw_reg_of_addr(addr), value), ..b }
    } else {
        BusView { ram: b.ram.update(addr as int, value), ..b }
    }
}

/// The little-endian 16-bit value at `addr`, `addr + 1` (wrapping).
pub open spec fn spec_bus_read16(b: BusView, addr: u16) -> u16 {
    spec_u16_from_le(spec_bus_read8(b, addr), spec_bus_read8(b, wrap16(addr + 1)))
}

/// The bus state after a little-endian 16-bit write at `addr`,
/// `addr + 1` (wrapping); the low byte is written first.
pub open spec fn spec_bus_write16(b: BusView, addr: u16, value: u16) -> BusView {
    spec_bus_write8(spec_bus_write8(b, addr, spec_lo_byte(value)), wrap16(addr + 1), spec_hi_byte(value))
}

/// The pending-interrupt mask: the conjunction of IE and IF.
pub open spec fn spec_pending_mask(b: BusView) -> u8 {
    b.hw.int_enable & b.hw.int_flag
}

/// The bus state after IF bit of `interrupt` is set.
pub open spec fn spec_trigger_interrupt(b: BusView, interrupt: Interrupt) -> BusView {
    BusView { hw: HwView { int_flag: b.hw.int_flag | spec_interrupt_mask(interrupt), ..b.hw }, ..b }
}

/// The bus state after IF bit of `interrupt` is cleared.
pub open spec fn spec_clear_interrupt(b: BusView, interrupt: Interrupt) -> BusView {
    BusView {
        hw: HwView { int_flag: b.hw.int_flag & !spec_interrupt_mask(interrupt), ..b.hw },
        ..b
    }
}

/// The memory bus: flat RAM overridden by the hardware-register file at
/// the mapped addresses.
pub struct Bus {
    memory: Memory,
    hw_registers: HwRegisters,
}

impl View for Bus {
    type V = BusView;

    closed spec fn view(&self) -> BusView {
        BusView { ram: self.memory@, hw: self.hw_registers@ }
    }
}

impl Bus {
    pub fn new() -> (r: Bus)
        ensures
            r@.ram == Seq::<u8>::new(MEMORY_SIZE as nat, |i: int| 0u8),
            r@.hw == (HwView {
                p1: 0, sb: 0, sc: 0, divider: 0, tima: 0, tma: 0, tac: 0, int_flag: 0,
                nr10: 0, nr11: 0, nr12: 0, nr13: 0, nr14: 0, nr21: 0, nr22: 0, nr23: 0,
                nr24: 0, nr30: 0, nr31: 0, nr32: 0, nr33: 0, nr34: 0, nr41: 0, nr42: 0,
                nr43: 0, nr44: 0, nr50: 0, nr51: 0, nr52: 0, lcdc: 0, stat: 0, scy: 0,
                scx: 0, ly: 0, lyc: 0, dma: 0, bgp: 0, obp0: 0, obp1: 0, wy: 0, wx: 0,
                int_enable: 0, serial: Seq::<u8>::empty(),
            }),
    {
        Bus { memory: Memory::new(), hw_registers: HwRegisters::new() }
    }

    fn write_to_bus(&mut self, addr: u16, value: u8)
        ensures
            final(self)@ == spec_bus_write8(old(self)@, addr, value),
    {
        if HwRegisters::supported_addr(addr) {
            self.hw_registers.set_addr(addr, value);
        } else {
            self.memory.write_to_8b(addr, value);
        }
    }

    fn read_from_bus(&self, addr: u16) -> (r: u8)
        ensures
            r == spec_bus_read8(self@, addr),
    {
        if HwRegisters::supported_addr(addr) {
            self.hw_registers.get_addr(addr)
        } else {
            self.memory.read_from_8b(addr)
        }
    }

    pub fn write_to_8b(&mut self, addr: u16, value: u8)
        ensures
            final(self)@ == spec_bus_write8(old(self)@, addr, value),
    {
        self.write_to_bus(addr, value);
    }

    pub fn read_from_8b(&self, addr: u16) -> (r: u8)
        ensures
            r == spec_bus_read8(self@, addr),
    {
        self.read_from_bus(addr)
    }

    /// Write `value` little-endian at `addr`, `addr + 1` (wrapping), the
    /// low byte first.
    pub fn write_to_16b(&mut self, addr: u16, value: u16)
        ensures
            final(self)@ == spec_bus_write16(old(self)@, addr, value),
    {
        self.write_to_bus(addr, (value % 256) as u8);
        self.write_to_bus(crate::word::wrapping_add16(addr, 1), (value / 256) as u8);
    }

    /// Read the little-endian 16-bit value at `addr`, `addr + 1`
    /// (wrapping).
    pub fn read_from_16b(&self, addr: u16) -> (r: u16)
        ensures
            r == spec_bus_read16(self@, addr),
    {
        let lo = self.read_from_bus(addr);
        let hi = self.read_from_bus(crate::word::wrapping_add16(addr, 1));
        lo as u16 + 256 * (hi as u16)
    }

    /// Copy a ROM image into RAM starting at address zero; bytes past the
    /// end of the address space are ignored.
    pub fn load_rom(&mut self, data: Vec<u8>)
        ensures
            final(self)@.ram.len() == old(self)@.ram.len(),
            final(self)@.hw == old(self)@.hw,
            forall|i: int|
                0 <= i < MEMORY_SIZE ==> final(self)@.ram[i] == if i < data@.len() {
                    data@[i]
                } else {
                    old(self)@.ram[i]
                },
    {
        self.memory.load_rom(data);
    }

    /// The highest-priority interrupt that is both enabled in IE and
    /// pending in IF, with its handler vector.
    pub fn get_interrupt(&self) -> (r: Option<(Interrupt, u16)>)
        ensures
            r == spec_get_interrupt(spec_pending_mask(self@)),
    {
        let enabled = self.hw_registers.get_hw_register(HwRegisterAddr::IE);
        let pending = self.hw_registers.get_hw_register(HwRegisterAddr::IF);
        Interrupt::get_interrupt(enabled & pending)
    }

    /// Set `interrupt`'s bit in IF.
    pub fn trigger_interrupt(&mut self, interrupt: Interrupt)
        ensures
            final(self)@ == spec_trigger_interrupt(old(self)@, interrupt),
    {
        let pending = self.hw_registers.get_hw_register(HwRegisterAddr::IF);
        self.hw_registers.set_hw_register(HwRegisterAddr::IF, pending | interrupt.mask());
    }

    /// Clear `interrupt`'s bit in IF, as interrupt dispatch does.
    pub fn clear_interrupt(&mut self, interrupt: Interrupt)
        ensures
            final(self)@ == spec_clear_interrupt(old(self)@, interrupt),
    {
        let pending = self.hw_registers.get_hw_register(HwRegisterAddr::IF);
        self.hw_registers.set_hw_register(HwRegisterAddr::IF, pending & !interrupt.mask());
    }

    /// The timer's internal DIV increment, which wraps instead of
    /// resetting as a user write would.
    pub fn inc_div(&mut self)
        ensures
            final(self)@ == (BusView { hw: spec_hw_inc_div(old(self)@.hw), ..old(self)@ }),
    {
        self.hw_registers.inc_div();
    }

    /// Hand the serial bytes emitted so far to the host, emptying the
    /// buffer.
    pub fn take_serial_output(&mut self) -> (r: Vec<u8>)
        ensures
            r@ == old(self)@.hw.serial,
            final(self)@ == (BusView {
                hw: HwView { serial: Seq::<u8>::empty(), ..old(self)@.hw },
                ..old(self)@
            }),
    {
        self.hw_registers.take_serial_output()
    }
}

} // verus!

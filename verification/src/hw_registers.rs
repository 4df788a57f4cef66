//! Storage and address multiplexing for the memory-mapped hardware
//! registers, with each register's write side effect.
//!
//! The serial port's output is not printed here: a write to SC with bit 7
//! set appends the SB byte to an output buffer that the host drains.

use vstd::prelude::*;

verus! {

/// The memory-mapped hardware registers the core knows, by name.
#[derive(Debug, Clone, Copy, PartialEq, Eq, Structural)]
pub enum HwRegisterAddr {
    P1,
    SB,
    SC,
    DIV,
    TIMA,
    TMA,
    TAC,
    IF,
    NR10,
    NR11,
    NR12,
    NR13,
    NR14,
    NR21,
    NR22,
    NR23,
    NR24,
    NR30,
    NR31,
    NR32,
    NR33,
    NR34,
    NR41,
    NR42,
    NR43,
    NR44,
    NR50,
    NR51,
    NR52,
    LCDC,
    STAT,
    SCY,
    SCX,
    LY,
    LYC,
    DMA,
    BGP,
    OBP0,
    OBP1,
    WY,
    WX,
    IE,
}

/// The bus address of a hardware register.
pub open spec fn spec_hw_addr(register: HwRegisterAddr) -> u16 {
    match register {
        HwRegisterAddr::P1 => 0xFF00,
        HwRegisterAddr::SB => 0xFF01,
        HwRegisterAddr::SC => 0xFF02,
        HwRegisterAddr::DIV => 0xFF04,
        HwRegisterAddr::TIMA => 0xFF05,
        HwRegisterAddr::TMA => 0xFF06,
        HwRegisterAddr::TAC => 0xFF07,
        HwRegisterAddr::IF => 0xFF0F,
        HwRegisterAddr::NR10 => 0xFF10,
        HwRegisterAddr::NR11 => 0xFF11,
        HwRegisterAddr::NR12 => 0xFF12,
        HwRegisterAddr::NR13 => 0xFF13,
        HwRegisterAddr::NR14 => 0xFF14,
        HwRegisterAddr::NR21 => 0xFF16,
        HwRegisterAddr::NR22 => 0xFF17,
        HwRegisterAddr::NR23 => 0xFF18,
        HwRegisterAddr::NR24 => 0xFF19,
        HwRegisterAddr::NR30 => 0xFF1A,
        HwRegisterAddr::NR31 => 0xFF1B,
        HwRegisterAddr::NR32 => 0xFF1C,
        HwRegisterAddr::NR33 => 0xFF1D,
        HwRegisterAddr::NR34 => 0xFF1E,
        HwRegisterAddr::NR41 => 0xFF20,
        HwRegisterAddr::NR42 => 0xFF21,
        HwRegisterAddr::NR43 => 0xFF22,
        HwRegisterAddr::NR44 => 0xFF23,
        HwRegisterAddr::NR50 => 0xFF24,
        HwRegisterAddr::NR51 => 0xFF25,
        HwRegisterAddr::NR52 => 0xFF26,
        HwRegisterAddr::LCDC => 0xFF40,
        HwRegisterAddr::STAT => 0xFF41,
        HwRegisterAddr::SCY => 0xFF42,
        HwRegisterAddr::SCX => 0xFF43,
        HwRegisterAddr::LY => 0xFF44,
        HwRegisterAddr::LYC => 0xFF45,
        HwRegisterAddr::DMA => 0xFF46,
        HwRegisterAddr::BGP => 0xFF47,
        HwRegisterAddr::OBP0 => 0xFF48,
        HwRegisterAddr::OBP1 => 0xFF49,
        HwRegisterAddr::WY => 0xFF4A,
        HwRegisterAddr::WX => 0xFF4B,
        HwRegisterAddr::IE => 0xFFFF,
    }
}

/// Whether a bus address is one of the hardware registers.
pub open spec fn spec_is_hw_addr(addr: u16) -> bool {
    addr == 0xFF00
        || addr == 0xFF01
        || addr == 0xFF02
        || addr == 0xFF04
        || addr == 0xFF05
        || addr == 0xFF06
        || addr == 0xFF07
        || addr == 0xFF0F
        || addr == 0xFF10
        || addr == 0xFF11
        || addr == 0xFF12
        || addr == 0xFF13
        || addr == 0xFF14
        || addr == 0xFF16
        || addr == 0xFF17
        || addr == 0xFF18
        || addr == 0xFF19
        || addr == 0xFF1A
        || addr == 0xFF1B
        || addr == 0xFF1C
        || addr == 0xFF1D
        || addr == 0xFF1E
        || addr == 0xFF20
        || addr == 0xFF21
        || addr == 0xFF22
        || addr == 0xFF23
        || addr == 0xFF24
        || addr == 0xFF25
        || addr == 0xFF26
        || addr == 0xFF40
        || addr == 0xFF41
        || addr == 0xFF42
        || addr == 0xFF43
        || addr == 0xFF44
        || addr == 0xFF45
        || addr == 0xFF46
        || addr == 0xFF47
        || addr == 0xFF48
        || addr == 0xFF49
        || addr == 0xFF4A
        || addr == 0xFF4B
        || addr == 0xFFFF
}

/// The hardware register at a bus address (meaningful only on addresses
/// for which `spec_is_hw_addr` holds).
pub open spec fn spec_hw_reg_of_addr(addr: u16) -> HwRegisterAddr {
    if addr == 0xFF00 {
        HwRegisterAddr::P1
    } else if addr == 0xFF01 {
        HwRegisterAddr::SB
    } else if addr == 0xFF02 {
        HwRegisterAddr::SC
    } else if addr == 0xFF04 {
        HwRegisterAddr::DIV
    } else if addr == 0xFF05 {
        HwRegisterAddr::TIMA
    } else if addr == 0xFF06 {
        HwRegisterAddr::TMA
    } else if addr == 0xFF07 {
        HwRegisterAddr::TAC
    } else if addr == 0xFF0F {
        HwRegisterAddr::IF
    } else if addr == 0xFF10 {
        HwRegisterAddr::NR10
    } else if addr == 0xFF11 {
        HwRegisterAddr::NR11
    } else if addr == 0xFF12 {
        HwRegisterAddr::NR12
    } else if addr == 0xFF13 {
        HwRegisterAddr::NR13
    } else if addr == 0xFF14 {
        HwRegisterAddr::NR14
    } else if addr == 0xFF16 {
        HwRegisterAddr::NR21
    } else if addr == 0xFF17 {
        HwRegisterAddr::NR22
    } else if addr == 0xFF18 {
        HwRegisterAddr::NR23
    } else if addr == 0xFF19 {
        HwRegisterAddr::NR24
    } else if addr == 0xFF1A {
        HwRegisterAddr::NR30
    } else if addr == 0xFF1B {
        HwRegisterAddr::NR31
    } else if addr == 0xFF1C {
        HwRegisterAddr::NR32
    } else if addr == 0xFF1D {
        HwRegisterAddr::NR33
    } else if addr == 0xFF1E {
        HwRegisterAddr::NR34
    } else if addr == 0xFF20 {
        HwRegisterAddr::NR41
    } else if addr == 0xFF21 {
        HwRegisterAddr::NR42
    } else if addr == 0xFF22 {
        HwRegisterAddr::NR43
    } else if addr == 0xFF23 {
        HwRegisterAddr::NR44
    } else if addr == 0xFF24 {
        HwRegisterAddr::NR50
    } else if addr == 0xFF25 {
        HwRegisterAddr::NR51
    } else if addr == 0xFF26 {
        HwRegisterAddr::NR52
    } else if addr == 0xFF40 {
        HwRegisterAddr::LCDC
    } else if addr == 0xFF41 {
        HwRegisterAddr::STAT
    } else if addr == 0xFF42 {
        HwRegisterAddr::SCY
    } else if addr == 0xFF43 {
        HwRegisterAddr::SCX
    } else if addr == 0xFF44 {
        HwRegisterAddr::LY
    } else if addr == 0xFF45 {
        HwRegisterAddr::LYC
    } else if addr == 0xFF46 {
        HwRegisterAddr::DMA
    } else if addr == 0xFF47 {
        HwRegisterAddr::BGP
    } else if addr == 0xFF48 {
        HwRegisterAddr::OBP0
    } else if addr == 0xFF49 {
        HwRegisterAddr::OBP1
    } else if addr == 0xFF4A {
        HwRegisterAddr::WY
    } else if addr == 0xFF4B {
        HwRegisterAddr::WX
    } else {
        HwRegisterAddr::IE
    }
}

impl HwRegisterAddr {
    /// The bus address of this register.
    pub fn addr(&self) -> (r: u16)
        ensures
            r == spec_hw_addr(*self),
    {
        match self {
            HwRegisterAddr::P1 => 0xFF00,
            HwRegisterAddr::SB => 0xFF01,
            HwRegisterAddr::SC => 0xFF02,
            HwRegisterAddr::DIV => 0xFF04,
            HwRegisterAddr::TIMA => 0xFF05,
            HwRegisterAddr::TMA => 0xFF06,
            HwRegisterAddr::TAC => 0xFF07,
            HwRegisterAddr::IF => 0xFF0F,
            HwRegisterAddr::NR10 => 0xFF10,
            HwRegisterAddr::NR11 => 0xFF11,
            HwRegisterAddr::NR12 => 0xFF12,
            HwRegisterAddr::NR13 => 0xFF13,
            HwRegisterAddr::NR14 => 0xFF14,
            HwRegisterAddr::NR21 => 0xFF16,
            HwRegisterAddr::NR22 => 0xFF17,
            HwRegisterAddr::NR23 => 0xFF18,
            HwRegisterAddr::NR24 => 0xFF19,
            HwRegisterAddr::NR30 => 0xFF1A,
            HwRegisterAddr::NR31 => 0xFF1B,
            HwRegisterAddr::NR32 => 0xFF1C,
            HwRegisterAddr::NR33 => 0xFF1D,
            HwRegisterAddr::NR34 => 0xFF1E,
            HwRegisterAddr::NR41 => 0xFF20,
            HwRegisterAddr::NR42 => 0xFF21,
            HwRegisterAddr::NR43 => 0xFF22,
            HwRegisterAddr::NR44 => 0xFF23,
            HwRegisterAddr::NR50 => 0xFF24,
            HwRegisterAddr::NR51 => 0xFF25,
            HwRegisterAddr::NR52 => 0xFF26,
            HwRegisterAddr::LCDC => 0xFF40,
            HwRegisterAddr::STAT => 0xFF41,
            HwRegisterAddr::SCY => 0xFF42,
            HwRegisterAddr::SCX => 0xFF43,
            HwRegisterAddr::LY => 0xFF44,
            HwRegisterAddr::LYC => 0xFF45,
            HwRegisterAddr::DMA => 0xFF46,
            HwRegisterAddr::BGP => 0xFF47,
            HwRegisterAddr::OBP0 => 0xFF48,
            HwRegisterAddr::OBP1 => 0xFF49,
            HwRegisterAddr::WY => 0xFF4A,
            HwRegisterAddr::WX => 0xFF4B,
            HwRegisterAddr::IE => 0xFFFF,
        }
    }

    /// The register at a supported bus address.
    pub fn from_addr(addr: u16) -> (r: HwRegisterAddr)
        requires
            spec_is_hw_addr(addr),
        ensures
            r == spec_hw_reg_of_addr(addr),
            spec_hw_addr(r) == addr,
    {
        match addr {
            0xFF00 => HwRegisterAddr::P1,
            0xFF01 => HwRegisterAddr::SB,
            0xFF02 => HwRegisterAddr::SC,
            0xFF04 => HwRegisterAddr::DIV,
            0xFF05 => HwRegisterAddr::TIMA,
            0xFF06 => HwRegisterAddr::TMA,
            0xFF07 => HwRegisterAddr::TAC,
            0xFF0F => HwRegisterAddr::IF,
            0xFF10 => HwRegisterAddr::NR10,
            0xFF11 => HwRegisterAddr::NR11,
            0xFF12 => HwRegisterAddr::NR12,
            0xFF13 => HwRegisterAddr::NR13,
            0xFF14 => HwRegisterAddr::NR14,
            0xFF16 => HwRegisterAddr::NR21,
            0xFF17 => HwRegisterAddr::NR22,
            0xFF18 => HwRegisterAddr::NR23,
            0xFF19 => HwRegisterAddr::NR24,
            0xFF1A => HwRegisterAddr::NR30,
            0xFF1B => HwRegisterAddr::NR31,
            0xFF1C => HwRegisterAddr::NR32,
            0xFF1D => HwRegisterAddr::NR33,
            0xFF1E => HwRegisterAddr::NR34,
            0xFF20 => HwRegisterAddr::NR41,
            0xFF21 => HwRegisterAddr::NR42,
            0xFF22 => HwRegisterAddr::NR43,
            0xFF23 => HwRegisterAddr::NR44,
            0xFF24 => HwRegisterAddr::NR50,
            0xFF25 => HwRegisterAddr::NR51,
            0xFF26 => HwRegisterAddr::NR52,
            0xFF40 => HwRegisterAddr::LCDC,
            0xFF41 => HwRegisterAddr::STAT,
            0xFF42 => HwRegisterAddr::SCY,
            0xFF43 => HwRegisterAddr::SCX,
            0xFF44 => HwRegisterAddr::LY,
            0xFF45 => HwRegisterAddr::LYC,
            0xFF46 => HwRegisterAddr::DMA,
            0xFF47 => HwRegisterAddr::BGP,
            0xFF48 => HwRegisterAddr::OBP0,
            0xFF49 => HwRegisterAddr::OBP1,
            0xFF4A => HwRegisterAddr::WY,
            0xFF4B => HwRegisterAddr::WX,
            _ => HwRegisterAddr::IE,
        }
    }
}

/// Mathematical state of the hardware-register file: the registers' bytes
/// and the serial bytes emitted so far.
pub ghost struct HwView {
    pub p1: u8,
    pub sb: u8,
    pub sc: u8,
    pub divider: u8,
    pub tima: u8,
    pub tma: u8,
    pub tac: u8,
    pub int_flag: u8,
    pub nr10: u8,
    pub nr11: u8,
    pub nr12: u8,
    pub nr13: u8,
    pub nr14: u8,
    pub nr21: u8,
    pub nr22: u8,
    pub nr23: u8,
    pub nr24: u8,
    pub nr30: u8,
    pub nr31: u8,
    pub nr32: u8,
    pub nr33: u8,
    pub nr34: u8,
    pub nr41: u8,
    pub nr42: u8,
    pub nr43: u8,
    pub nr44: u8,
    pub nr50: u8,
    pub nr51: u8,
    pub nr52: u8,
    pub lcdc: u8,
    pub stat: u8,
    pub scy: u8,
    pub scx: u8,
    pub ly: u8,
    pub lyc: u8,
    pub dma: u8,
    pub bgp: u8,
    pub obp0: u8,
    pub obp1: u8,
    pub wy: u8,
    pub wx: u8,
    pub int_enable: u8,
    pub serial: Seq<u8>,
}

/// The value a read of `register` observes.
pub open spec fn spec_hw_read(h: HwView, register: HwRegisterAddr) -> u8 {
    match register {
        HwRegisterAddr::P1 => h.p1,
        HwRegisterAddr::SB => h.sb,
        HwRegisterAddr::SC => h.sc,
        HwRegisterAddr::DIV => h.divider,
        HwRegisterAddr::TIMA => h.tima,
        HwRegisterAddr::TMA => h.tma,
        HwRegisterAddr::TAC => h.tac,
        HwRegisterAddr::IF => h.int_flag,
        HwRegisterAddr::NR10 => h.nr10,
        HwRegisterAddr::NR11 => h.nr11,
        HwRegisterAddr::NR12 => h.nr12,
        HwRegisterAddr::NR13 => h.nr13,
        HwRegisterAddr::NR14 => h.nr14,
        HwRegisterAddr::NR21 => h.nr21,
        HwRegisterAddr::NR22 => h.nr22,
        HwRegisterAddr::NR23 => h.nr23,
        HwRegisterAddr::NR24 => h.nr24,
        HwRegisterAddr::NR30 => h.nr30,
        HwRegisterAddr::NR31 => h.nr31,
        HwRegisterAddr::NR32 => h.nr32,
        HwRegisterAddr::NR33 => h.nr33,
        HwRegisterAddr::NR34 => h.nr34,
        HwRegisterAddr::NR41 => h.nr41,
        HwRegisterAddr::NR42 => h.nr42,
        HwRegisterAddr::NR43 => h.nr43,
        HwRegisterAddr::NR44 => h.nr44,
        HwRegisterAddr::NR50 => h.nr50,
        HwRegisterAddr::NR51 => h.nr51,
        HwRegisterAddr::NR52 => h.nr52,
        HwRegisterAddr::LCDC => h.lcdc,
        HwRegisterAddr::STAT => h.stat,
        HwRegisterAddr::SCY => h.scy,
        HwRegisterAddr::SCX => h.scx,
        HwRegisterAddr::LY => h.ly,
        HwRegisterAddr::LYC => h.lyc,
        HwRegisterAddr::DMA => h.dma,
        HwRegisterAddr::BGP => h.bgp,
        HwRegisterAddr::OBP0 => h.obp0,
        HwRegisterAddr::OBP1 => h.obp1,
        HwRegisterAddr::WY => h.wy,
        HwRegisterAddr::WX => h.wx,
        HwRegisterAddr::IE => h.int_enable,
    }
}

/// The state after a user write of `value` to `register`.
///
/// Three registers have side effects: a write to SC with bit 7 set emits
/// the SB byte on the serial output and clears bit 7; any write to DIV
/// resets it to zero; a write to TAC first takes a TIMA increment
/// opportunity.
pub open spec fn spec_hw_write(h: HwView, register: HwRegisterAddr, value: u8) -> HwView {
    match register {
        HwRegisterAddr::P1 => HwView { p1: value, ..h },
        HwRegisterAddr::SB => HwView { sb: value, ..h },
        HwRegisterAddr::SC => if value & 0x80 != 0 {
            HwView { sc: value & 0x7F, serial: h.serial.push(h.sb), ..h }
        } else {
            HwView { sc: value, ..h }
        },
        HwRegisterAddr::DIV => HwView { divider: 0, ..h },
        HwRegisterAddr::TIMA => HwView { tima: value, ..h },
        HwRegisterAddr::TMA => HwView { tma: value, ..h },
        HwRegisterAddr::TAC => HwView {
            tima: if h.tima == 0xFF { 0 } else { (h.tima + 1) as u8 },
            tac: value,
            ..h
        },
        HwRegisterAddr::IF => HwView { int_flag: value, ..h },
        HwRegisterAddr::NR10 => HwView { nr10: value, ..h },
        HwRegisterAddr::NR11 => HwView { nr11: value, ..h },
        HwRegisterAddr::NR12 => HwView { nr12: value, ..h },
        HwRegisterAddr::NR13 => HwView { nr13: value, ..h },
        HwRegisterAddr::NR14 => HwView { nr14: value, ..h },
        HwRegisterAddr::NR21 => HwView { nr21: value, ..h },
        HwRegisterAddr::NR22 => HwView { nr22: value, ..h },
        HwRegisterAddr::NR23 => HwView { nr23: value, ..h },
        HwRegisterAddr::NR24 => HwView { nr24: value, ..h },
        HwRegisterAddr::NR30 => HwView { nr30: value, ..h },
        HwRegisterAddr::NR31 => HwView { nr31: value, ..h },
        HwRegisterAddr::NR32 => HwView { nr32: value, ..h },
        HwRegisterAddr::NR33 => HwView { nr33: value, ..h },
        HwRegisterAddr::NR34 => HwView { nr34: value, ..h },
        HwRegisterAddr::NR41 => HwView { nr41: value, ..h },
        HwRegisterAddr::NR42 => HwView { nr42: value, ..h },
        HwRegisterAddr::NR43 => HwView { nr43: value, ..h },
        HwRegisterAddr::NR44 => HwView { nr44: value, ..h },
        HwRegisterAddr::NR50 => HwView { nr50: value, ..h },
        HwRegisterAddr::NR51 => HwView { nr51: value, ..h },
        HwRegisterAddr::NR52 => HwView { nr52: value, ..h },
        HwRegisterAddr::LCDC => HwView { lcdc: value, ..h },
        HwRegisterAddr::STAT => HwView { stat: value, ..h },
        HwRegisterAddr::SCY => HwView { scy: value, ..h },
        HwRegisterAddr::SCX => HwView { scx: value, ..h },
        HwRegisterAddr::LY => HwView { ly: value, ..h },
        HwRegisterAddr::LYC => HwView { lyc: value, ..h },
        HwRegisterAddr::DMA => HwView { dma: value, ..h },
        HwRegisterAddr::BGP => HwView { bgp: value, ..h },
        HwRegisterAddr::OBP0 => HwView { obp0: value, ..h },
        HwRegisterAddr::OBP1 => HwView { obp1: value, ..h },
        HwRegisterAddr::WY => HwView { wy: value, ..h },
        HwRegisterAddr::WX => HwView { wx: value, ..h },
        HwRegisterAddr::IE => HwView { int_enable: value, ..h },
    }
}

/// The state after the timer's internal DIV increment, which wraps and
/// does not reset.
pub open spec fn spec_hw_inc_div(h: HwView) -> HwView {
    HwView { divider: if h.divider == 0xFF { 0 } else { (h.divider + 1) as u8 }, ..h }
}

/// The hardware-register file. All registers power on as zero.
pub struct HwRegisters {
    p1: u8,
    sb: u8,
    sc: u8,
    divider: u8,
    tima: u8,
    tma: u8,
    tac: u8,
    int_flag: u8,
    nr10: u8,
    nr11: u8,
    nr12: u8,
    nr13: u8,
    nr14: u8,
    nr21: u8,
    nr22: u8,
    nr23: u8,
    nr24: u8,
    nr30: u8,
    nr31: u8,
    nr32: u8,
    nr33: u8,
    nr34: u8,
    nr41: u8,
    nr42: u8,
    nr43: u8,
    nr44: u8,
    nr50: u8,
    nr51: u8,
    nr52: u8,
    lcdc: u8,
    stat: u8,
    scy: u8,
    scx: u8,
    ly: u8,
    lyc: u8,
    dma: u8,
    bgp: u8,
    obp0: u8,
    obp1: u8,
    wy: u8,
    wx: u8,
    int_enable: u8,
    serial_out: Vec<u8>,
}

impl View for HwRegisters {
    type V = HwView;

    closed spec fn view(&self) -> HwView {
        HwView {
            p1: self.p1,
            sb: self.sb,
            sc: self.sc,
            divider: self.divider,
            tima: self.tima,
            tma: self.tma,
            tac: self.tac,
            int_flag: self.int_flag,
            nr10: self.nr10,
            nr11: self.nr11,
            nr12: self.nr12,
            nr13: self.nr13,
            nr14: self.nr14,
            nr21: self.nr21,
            nr22: self.nr22,
            nr23: self.nr23,
            nr24: self.nr24,
            nr30: self.nr30,
            nr31: self.nr31,
            nr32: self.nr32,
            nr33: self.nr33,
            nr34: self.nr34,
            nr41: self.nr41,
            nr42: self.nr42,
            nr43: self.nr43,
            nr44: self.nr44,
            nr50: self.nr50,
            nr51: self.nr51,
            nr52: self.nr52,
            lcdc: self.lcdc,
            stat: self.stat,
            scy: self.scy,
            scx: self.scx,
            ly: self.ly,
            lyc: self.lyc,
            dma: self.dma,
            bgp: self.bgp,
            obp0: self.obp0,
            obp1: self.obp1,
            wy: self.wy,
            wx: self.wx,
            int_enable: self.int_enable,
            serial: self.serial_out@,
        }
    }
}

impl HwRegisters {
    pub fn new() -> (r: HwRegisters)
        ensures
            r@.p1 == 0,
            r@.sb == 0,
            r@.sc == 0,
            r@.divider == 0,
            r@.tima == 0,
            r@.tma == 0,
            r@.tac == 0,
            r@.int_flag == 0,
            r@.nr10 == 0,
            r@.nr11 == 0,
            r@.nr12 == 0,
            r@.nr13 == 0,
            r@.nr14 == 0,
            r@.nr21 == 0,
            r@.nr22 == 0,
            r@.nr23 == 0,
            r@.nr24 == 0,
            r@.nr30 == 0,
            r@.nr31 == 0,
            r@.nr32 == 0,
            r@.nr33 == 0,
            r@.nr34 == 0,
            r@.nr41 == 0,
            r@.nr42 == 0,
            r@.nr43 == 0,
            r@.nr44 == 0,
            r@.nr50 == 0,
            r@.nr51 == 0,
            r@.nr52 == 0,
            r@.lcdc == 0,
            r@.stat == 0,
            r@.scy == 0,
            r@.scx == 0,
            r@.ly == 0,
            r@.lyc == 0,
            r@.dma == 0,
            r@.bgp == 0,
            r@.obp0 == 0,
            r@.obp1 == 0,
            r@.wy == 0,
            r@.wx == 0,
            r@.int_enable == 0,
            r@.serial == Seq::<u8>::empty(),
    {
        HwRegisters {
            p1: 0,
            sb: 0,
            sc: 0,
            divider: 0,
            tima: 0,
            tma: 0,
            tac: 0,
            int_flag: 0,
            nr10: 0,
            nr11: 0,
            nr12: 0,
            nr13: 0,
            nr14: 0,
            nr21: 0,
            nr22: 0,
            nr23: 0,
            nr24: 0,
            nr30: 0,
            nr31: 0,
            nr32: 0,
            nr33: 0,
            nr34: 0,
            nr41: 0,
            nr42: 0,
            nr43: 0,
            nr44: 0,
            nr50: 0,
            nr51: 0,
            nr52: 0,
            lcdc: 0,
            stat: 0,
            scy: 0,
            scx: 0,
            ly: 0,
            lyc: 0,
            dma: 0,
            bgp: 0,
            obp0: 0,
            obp1: 0,
            wy: 0,
            wx: 0,
            int_enable: 0,
            serial_out: Vec::new(),
        }
    }

    /// Read a hardware register.
    pub fn get_hw_register(&self, hw_register_addr: HwRegisterAddr) -> (r: u8)
        ensures
            r == spec_hw_read(self@, hw_register_addr),
    {
        match hw_register_addr {
            HwRegisterAddr::P1 => self.p1,
            HwRegisterAddr::SB => self.sb,
            HwRegisterAddr::SC => self.sc,
            HwRegisterAddr::DIV => self.divider,
            HwRegisterAddr::TIMA => self.tima,
            HwRegisterAddr::TMA => self.tma,
            HwRegisterAddr::TAC => self.tac,
            HwRegisterAddr::IF => self.int_flag,
            HwRegisterAddr::NR10 => self.nr10,
            HwRegisterAddr::NR11 => self.nr11,
            HwRegisterAddr::NR12 => self.nr12,
            HwRegisterAddr::NR13 => self.nr13,
            HwRegisterAddr::NR14 => self.nr14,
            HwRegisterAddr::NR21 => self.nr21,
            HwRegisterAddr::NR22 => self.nr22,
            HwRegisterAddr::NR23 => self.nr23,
            HwRegisterAddr::NR24 => self.nr24,
            HwRegisterAddr::NR30 => self.nr30,
            HwRegisterAddr::NR31 => self.nr31,
            HwRegisterAddr::NR32 => self.nr32,
            HwRegisterAddr::NR33 => self.nr33,
            HwRegisterAddr::NR34 => self.nr34,
            HwRegisterAddr::NR41 => self.nr41,
            HwRegisterAddr::NR42 => self.nr42,
            HwRegisterAddr::NR43 => self.nr43,
            HwRegisterAddr::NR44 => self.nr44,
            HwRegisterAddr::NR50 => self.nr50,
            HwRegisterAddr::NR51 => self.nr51,
            HwRegisterAddr::NR52 => self.nr52,
            HwRegisterAddr::LCDC => self.lcdc,
            HwRegisterAddr::STAT => self.stat,
            HwRegisterAddr::SCY => self.scy,
            HwRegisterAddr::SCX => self.scx,
            HwRegisterAddr::LY => self.ly,
            HwRegisterAddr::LYC => self.lyc,
            HwRegisterAddr::DMA => self.dma,
            HwRegisterAddr::BGP => self.bgp,
            HwRegisterAddr::OBP0 => self.obp0,
            HwRegisterAddr::OBP1 => self.obp1,
            HwRegisterAddr::WY => self.wy,
            HwRegisterAddr::WX => self.wx,
            HwRegisterAddr::IE => self.int_enable,
        }
    }

    /// Write a hardware register, applying its write side effect.
    pub fn set_hw_register(&mut self, hw_register_addr: HwRegisterAddr, value: u8)
        ensures
            final(self)@ == spec_hw_write(old(self)@, hw_register_addr, value),
    {
        match hw_register_addr {
            HwRegisterAddr::P1 => {
                self.p1 = value;
                return;
            },
            HwRegisterAddr::SB => {
                self.sb = value;
                return;
            },
            HwRegisterAddr::SC => {
                if value & 0x80 != 0 {
                    self.sc = value & 0x7F;
                    self.serial_out.push(self.sb);
                } else {
                    self.sc = value;
                }
                return;
            },
            HwRegisterAddr::DIV => {
                self.divider = 0;
                return;
            },
            HwRegisterAddr::TIMA => {
                self.tima = value;
                return;
            },
            HwRegisterAddr::TMA => {
                self.tma = value;
                return;
            },
            HwRegisterAddr::TAC => {
                self.inc_tima();
                self.tac = value;
                return;
            },
            HwRegisterAddr::IF => {
                self.int_flag = value;
                return;
            },
            HwRegisterAddr::NR10 => {
                self.nr10 = value;
                return;
            },
            HwRegisterAddr::NR11 => {
                self.nr11 = value;
                return;
            },
            HwRegisterAddr::NR12 => {
                self.nr12 = value;
                return;
            },
            HwRegisterAddr::NR13 => {
                self.nr13 = value;
                return;
            },
            HwRegisterAddr::NR14 => {
                self.nr14 = value;
                return;
            },
            HwRegisterAddr::NR21 => {
                self.nr21 = value;
                return;
            },
            HwRegisterAddr::NR22 => {
                self.nr22 = value;
                return;
            },
            HwRegisterAddr::NR23 => {
                self.nr23 = value;
                return;
            },
            HwRegisterAddr::NR24 => {
                self.nr24 = value;
                return;
            },
            HwRegisterAddr::NR30 => {
                self.nr30 = value;
                return;
            },
            HwRegisterAddr::NR31 => {
                self.nr31 = value;
                return;
            },
            HwRegisterAddr::NR32 => {
                self.nr32 = value;
                return;
            },
            HwRegisterAddr::NR33 => {
                self.nr33 = value;
                return;
            },
            HwRegisterAddr::NR34 => {
                self.nr34 = value;
                return;
            },
            HwRegisterAddr::NR41 => {
                self.nr41 = value;
                return;
            },
            HwRegisterAddr::NR42 => {
                self.nr42 = value;
                return;
            },
            HwRegisterAddr::NR43 => {
                self.nr43 = value;
                return;
            },
            HwRegisterAddr::NR44 => {
                self.nr44 = value;
                return;
            },
            HwRegisterAddr::NR50 => {
                self.nr50 = value;
                return;
            },
            HwRegisterAddr::NR51 => {
                self.nr51 = value;
                return;
            },
            HwRegisterAddr::NR52 => {
                self.nr52 = value;
                return;
            },
            HwRegisterAddr::LCDC => {
                self.lcdc = value;
                return;
            },
            HwRegisterAddr::STAT => {
                self.stat = value;
                return;
            },
            HwRegisterAddr::SCY => {
                self.scy = value;
                return;
            },
            HwRegisterAddr::SCX => {
                self.scx = value;
                return;
            },
            HwRegisterAddr::LY => {
                self.ly = value;
                return;
            },
            HwRegisterAddr::LYC => {
                self.lyc = value;
                return;
            },
            HwRegisterAddr::DMA => {
                self.dma = value;
                return;
            },
            HwRegisterAddr::BGP => {
                self.bgp = value;
                return;
            },
            HwRegisterAddr::OBP0 => {
                self.obp0 = value;
                return;
            },
            HwRegisterAddr::OBP1 => {
                self.obp1 = value;
                return;
            },
            HwRegisterAddr::WY => {
                self.wy = value;
                return;
            },
            HwRegisterAddr::WX => {
                self.wx = value;
                return;
            },
            HwRegisterAddr::IE => {
                self.int_enable = value;
                return;
            },
        }
    }

    /// Write the register at a supported address.
    pub fn set_addr(&mut self, addr: u16, value: u8)
        requires
            spec_is_hw_addr(addr),
        ensures
            final(self)@ == spec_hw_write(old(self)@, spec_hw_reg_of_addr(addr), value),
    {
        let hw_register_addr = HwRegisterAddr::from_addr(addr);
        self.set_hw_register(hw_register_addr, value)
    }

    /// Read the register at a supported address.
    pub fn get_addr(&self, addr: u16) -> (r: u8)
        requires
            spec_is_hw_addr(addr),
        ensures
            r == spec_hw_read(self@, spec_hw_reg_of_addr(addr)),
    {
        let hw_register_addr = HwRegisterAddr::from_addr(addr);
        self.get_hw_register(hw_register_addr)
    }

    /// The timer's internal DIV increment: wraps, does not reset.
    pub fn inc_div(&mut self)
        ensures
            final(self)@ == spec_hw_inc_div(old(self)@),
    {
        self.divider = self.divider.wrapping_add(1);
    }

    /// The TIMA increment opportunity a TAC write takes.
    fn inc_tima(&mut self)
        ensures
            final(self)@ == (HwView {
                tima: if old(self)@.tima == 0xFF { 0 } else { (old(self)@.tima + 1) as u8 },
                ..old(self)@
            }),
    {
        self.tima = self.tima.wrapping_add(1);
    }

    /// Hand the serial bytes emitted so far to the host, emptying the
    /// buffer.
    pub fn take_serial_output(&mut self) -> (r: Vec<u8>)
        ensures
            r@ == old(self)@.serial,
            final(self)@ == (HwView { serial: Seq::<u8>::empty(), ..old(self)@ }),
    {
        let mut out: Vec<u8> = Vec::new();
        core::mem::swap(&mut out, &mut self.serial_out);
        out
    }

    /// Whether a bus address belongs to the hardware-register file.
    pub fn supported_addr(addr: u16) -> (r: bool)
        ensures
            r == spec_is_hw_addr(addr),
    {
        match addr {
            0xFF00 | 0xFF01 | 0xFF02 | 0xFF04 | 0xFF05 | 0xFF06 | 0xFF07 | 0xFF0F | 0xFF10 | 0xFF11 | 0xFF12 | 0xFF13 | 0xFF14 | 0xFF16 | 0xFF17 | 0xFF18 | 0xFF19 | 0xFF1A | 0xFF1B | 0xFF1C | 0xFF1D | 0xFF1E | 0xFF20 | 0xFF21 | 0xFF22 | 0xFF23 | 0xFF24 | 0xFF25 | 0xFF26 | 0xFF40 | 0xFF41 | 0xFF42 | 0xFF43 | 0xFF44 | 0xFF45 | 0xFF46 | 0xFF47 | 0xFF48 | 0xFF49 | 0xFF4A | 0xFF4B | 0xFFFF => true,
            _ => false,
        }
    }
}

} // verus!

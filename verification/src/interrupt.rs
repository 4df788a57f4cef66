//! The five interrupt sources, their mask bits, their handler vectors,
//! and the priority arbiter.

use vstd::prelude::*;

verus! {

/// The interrupt sources, in priority order (VBlank highest).
#[derive(Debug, Clone, Copy, PartialEq, Eq, Structural)]
pub enum Interrupt {
    VBlank,
    STAT,
    Timer,
    Serial,
    Joypad,
}

/// The bit this source occupies in the IE and IF registers.
pub open spec fn spec_interrupt_mask(interrupt: Interrupt) -> u8 {
    match interrupt {
        Interrupt::VBlank => 0x01,
        Interrupt::STAT => 0x02,
        Interrupt::Timer => 0x04,
        Interrupt::Serial => 0x08,
        Interrupt::Joypad => 0x10,
    }
}

/// The fixed handler address this source vectors to.
pub open spec fn spec_interrupt_handler(interrupt: Interrupt) -> u16 {
    match interrupt {
        Interrupt::VBlank => 0x40,
        Interrupt::STAT => 0x48,
        Interrupt::Timer => 0x50,
        Interrupt::Serial => 0x58,
        Interrupt::Joypad => 0x60,
    }
}

/// The highest-priority source whose bit is set in `mask`, with its
/// handler vector; `None` when none of the five low bits is set.
pub open spec fn spec_get_interrupt(mask: u8) -> Option<(Interrupt, u16)> {
    if mask & 0x01 != 0 {
        Some((Interrupt::VBlank, 0x40))
    } else if mask & 0x02 != 0 {
        Some((Interrupt::STAT, 0x48))
    } else if mask & 0x04 != 0 {
        Some((Interrupt::Timer, 0x50))
    } else if mask & 0x08 != 0 {
        Some((Interrupt::Serial, 0x58))
    } else if mask & 0x10 != 0 {
        Some((Interrupt::Joypad, 0x60))
    } else {
        None
    }
}

impl Interrupt {
    /// The bit this source occupies in IE and IF.
    pub fn mask(&self) -> (r: u8)
        ensures
            r == spec_interrupt_mask(*self),
    {
        match self {
            Interrupt::VBlank => 0x01,
            Interrupt::STAT => 0x02,
            Interrupt::Timer => 0x04,
            Interrupt::Serial => 0x08,
            Interrupt::Joypad => 0x10,
        }
    }

    /// The fixed handler address this source vectors to.
    pub fn handler_addr(&self) -> (r: u16)
        ensures
            r == spec_interrupt_handler(*self),
    {
        match self {
            Interrupt::VBlank => 0x40,
            Interrupt::STAT => 0x48,
            Interrupt::Timer => 0x50,
            Interrupt::Serial => 0x58,
            Interrupt::Joypad => 0x60,
        }
    }

    /// Pick the highest-priority pending source out of `mask`
    /// (the conjunction of IE and IF), with its handler vector.
    pub fn get_interrupt(mask: u8) -> (r: Option<(Interrupt, u16)>)
        ensures
            r == spec_get_interrupt(mask),
    {
        if mask & 0x01 != 0 {
            Some((Interrupt::VBlank, 0x40))
        } else if mask & 0x02 != 0 {
            Some((Interrupt::STAT, 0x48))
        } else if mask & 0x04 != 0 {
            Some((Interrupt::Timer, 0x50))
        } else if mask & 0x08 != 0 {
            Some((Interrupt::Serial, 0x58))
        } else if mask & 0x10 != 0 {
            Some((Interrupt::Joypad, 0x60))
        } else {
            None
        }
    }
}

} // verus!

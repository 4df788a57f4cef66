//! The timer: divides elapsed cycles into DIV and TIMA ticks and raises
//! the timer interrupt when TIMA overflows.

use vstd::prelude::*;
use crate::bus::{Bus, BusView};
use crate::hw_registers::{HwRegisterAddr, HwView};
use crate::interrupt::Interrupt;
use crate::word::wrap8;

verus! {

/// Cycles per DIV increment.
pub const TIMER_DIV_INC_RATE: u64 = 256;

/// Cycles per TIMA increment selected by the low two bits of TAC.
pub open spec fn spec_tac_rate(tac: u8) -> u64 {
    if tac & 0b11 == 0b00 {
        1024
    } else if tac & 0b11 == 0b01 {
        16
    } else if tac & 0b11 == 0b10 {
        64
    } else {
        256
    }
}

/// TIMA after `n` increments, reloading from TMA on each overflow.
pub open spec fn spec_tima_after(tima: u8, tma: u8, n: nat) -> u8
    decreases n,
{
    if n == 0 {
        tima
    } else {
        let previous = spec_tima_after(tima, tma, (n - 1) as nat);
        if previous == 0xFF {
            tma
        } else {
            (previous + 1) as u8
        }
    }
}

/// Whether any of the `n` increments overflowed (and so raised the timer
/// interrupt).
pub open spec fn spec_tima_wrapped(tima: u8, tma: u8, n: nat) -> bool
    decreases n,
{
    if n == 0 {
        false
    } else {
        spec_tima_wrapped(tima, tma, (n - 1) as nat) || spec_tima_after(tima, tma, (n - 1) as nat)
            == 0xFF
    }
}

/// A 64-bit cycle counter reduced modulo 2^64.
pub open spec fn wrap64(x: int) -> u64 {
    (x % 0x1_0000_0000_0000_0000) as u64
}


/// What one timer tick does: both accumulators take the added cycles
/// (wrapping); while TAC has the timer enabled TIMA advances once per
/// TAC-selected interval, reloading from TMA and raising the timer
/// interrupt on each overflow; DIV advances once per 256 cycles with its
/// own wrapping increment. Each accumulator keeps the remainder.
pub open spec fn spec_tick_post(t0: Timer, b0: BusView, added_cycles: u64, t1: Timer, b1: BusView) -> bool {
    let tac = b0.hw.tac;
    let rate = spec_tac_rate(tac);
    let enabled = tac & 0b100 != 0;
    let acc_t = wrap64(t0.spec_since_tima() + added_cycles);
    let acc_d = wrap64(t0.spec_since_div() + added_cycles);
    let n_t = if enabled {
        (acc_t / rate) as nat
    } else {
        0nat
    };
    let n_d = acc_d / 256;
    let hw0 = b0.hw;
    &&& t1.spec_cycles() == wrap64(t0.spec_cycles() + added_cycles)
    &&& t1.spec_since_tima() == if enabled {
        acc_t % rate
    } else {
        acc_t
    }
    &&& t1.spec_since_div() == acc_d % 256
    &&& b1 == (BusView {
        hw: HwView {
            tima: spec_tima_after(hw0.tima, hw0.tma, n_t),
            int_flag: if spec_tima_wrapped(hw0.tima, hw0.tma, n_t) {
                hw0.int_flag | 0x04
            } else {
                hw0.int_flag
            },
            divider: wrap8(hw0.divider + n_d),
            ..hw0
        },
        ..b0
    })
}

/// The timer's own state: a running cycle count and the cycles
/// accumulated toward the next DIV and TIMA ticks.
pub struct Timer {
    c_cycles: u64,
    c_cycles_since_div: u64,
    c_cycles_since_tima: u64,
}

impl Timer {
    /// The cycles accumulated toward the next DIV increment.
    pub closed spec fn spec_since_div(self) -> u64 {
        self.c_cycles_since_div
    }

    /// The cycles accumulated toward the next TIMA increment.
    pub closed spec fn spec_since_tima(self) -> u64 {
        self.c_cycles_since_tima
    }

    /// The running cycle count.
    pub closed spec fn spec_cycles(self) -> u64 {
        self.c_cycles
    }

    pub fn new() -> (r: Timer)
        ensures
            r.spec_cycles() == 0,
            r.spec_since_div() == 0,
            r.spec_since_tima() == 0,
    {
        Timer { c_cycles: 0, c_cycles_since_div: 0, c_cycles_since_tima: 0 }
    }

    /// Account for `added_cycles` elapsed cycles: tick TIMA at the
    /// TAC-selected rate (reloading from TMA and raising the timer
    /// interrupt on overflow), then tick DIV once per 256 cycles.
    ///
    /// Afterwards each accumulator is the remainder of the accumulated
    /// cycles by its tick interval (TIMA's only while TAC has the timer
    /// enabled).
    pub fn tick(&mut self, added_cycles: u64, bus: &mut Bus)
        ensures
            spec_tick_post(*old(self), old(bus)@, added_cycles, *final(self), final(bus)@),
    {
        self.c_cycles = self.c_cycles.wrapping_add(added_cycles);
        self.c_cycles_since_tima = self.c_cycles_since_tima.wrapping_add(added_cycles);
        self.c_cycles_since_div = self.c_cycles_since_div.wrapping_add(added_cycles);
        proof {
            lemma_wrap64_wrapping_add(old(self).spec_cycles(), added_cycles);
            lemma_wrap64_wrapping_add(old(self).spec_since_tima(), added_cycles);
            lemma_wrap64_wrapping_add(old(self).spec_since_div(), added_cycles);
        }

        self.inc_tima(bus);
        self.inc_div(bus);
    }

    fn inc_div(&mut self, bus: &mut Bus)
        ensures
            *final(self) == (Timer {
                c_cycles_since_div: (old(self).spec_since_div() % 256) as u64,
                ..*old(self)
            }),
            final(bus)@ == (BusView {
                hw: HwView {
                    divider: wrap8(old(bus)@.hw.divider + old(self).spec_since_div() / 256),
                    ..old(bus)@.hw
                },
                ..old(bus)@
            }),
    {
        let ghost acc0 = self.c_cycles_since_div as int;
        let ghost div0 = bus@.hw.divider;
        let ghost b0 = bus@;
        let ghost mut ticks: int = 0;
        proof {
            vstd::arithmetic::div_mod::lemma_small_mod(div0 as nat, 256);
        }
        while self.c_cycles_since_div >= TIMER_DIV_INC_RATE
            invariant
                0 <= ticks,
                acc0 == self.c_cycles_since_div + ticks * 256,
                self.c_cycles == old(self).c_cycles,
                self.c_cycles_since_tima == old(self).c_cycles_since_tima,
                bus@ == (BusView {
                    hw: HwView { divider: wrap8(div0 + ticks), ..b0.hw },
                    ..b0
                }),
            decreases self.c_cycles_since_div,
        {
            bus.inc_div();
            proof {
                lemma_wrap8_inc(div0 as int, ticks);
            }
            self.c_cycles_since_div = self.c_cycles_since_div - TIMER_DIV_INC_RATE;
            proof {
                ticks = ticks + 1;
            }
        }
        proof {
            vstd::arithmetic::div_mod::lemma_fundamental_div_mod_converse(
                acc0,
                256,
                ticks,
                self.c_cycles_since_div as int,
            );
        }
    }

    fn inc_tima(&mut self, bus: &mut Bus)
        ensures
            ({
                let tac = old(bus)@.hw.tac;
                let rate = spec_tac_rate(tac);
                let enabled = tac & 0b100 != 0;
                let acc = old(self).spec_since_tima();
                let n = if enabled {
                    (acc / rate) as nat
                } else {
                    0nat
                };
                let hw0 = old(bus)@.hw;
                &&& *final(self) == (Timer {
                    c_cycles_since_tima: if enabled {
                        (acc % rate) as u64
                    } else {
                        acc
                    },
                    ..*old(self)
                })
                &&& final(bus)@ == (BusView {
                    hw: HwView {
                        tima: spec_tima_after(hw0.tima, hw0.tma, n),
                        int_flag: if spec_tima_wrapped(hw0.tima, hw0.tma, n) {
                            hw0.int_flag | 0x04
                        } else {
                            hw0.int_flag
                        },
                        ..hw0
                    },
                    ..old(bus)@
                })
            }),
    {
        let tac = bus.read_from_8b(HwRegisterAddr::TAC.addr());
        assert(tac == bus@.hw.tac);

        if (tac & 0b100) == 0 {
            return ;
        }
        let tac_cycle = Self::cycle_from_tac(tac);
        let tma = bus.read_from_8b(HwRegisterAddr::TMA.addr());
        assert(tma == bus@.hw.tma);

        let ghost acc0 = self.c_cycles_since_tima as int;
        let ghost t0 = bus@.hw.tima;
        let ghost f0 = bus@.hw.int_flag;
        let ghost b0 = bus@;
        let ghost mut ticks: nat = 0;
        while self.c_cycles_since_tima >= tac_cycle
            invariant
                tac_cycle == spec_tac_rate(tac),
                tac_cycle >= 16,
                tma == b0.hw.tma,
                t0 == b0.hw.tima,
                f0 == b0.hw.int_flag,
                acc0 == self.c_cycles_since_tima + ticks * tac_cycle,
                self.c_cycles == old(self).c_cycles,
                self.c_cycles_since_div == old(self).c_cycles_since_div,
                bus@ == (BusView {
                    hw: HwView {
                        tima: spec_tima_after(t0, tma, ticks),
                        int_flag: if spec_tima_wrapped(t0, tma, ticks) {
                            f0 | 0x04
                        } else {
                            f0
                        },
                        ..b0.hw
                    },
                    ..b0
                }),
            decreases self.c_cycles_since_tima,
        {
            self.c_cycles_since_tima = self.c_cycles_since_tima - tac_cycle;

            let current_tima = bus.read_from_8b(HwRegisterAddr::TIMA.addr());
            assert(current_tima == bus@.hw.tima);

            if current_tima == 0xFF {
                bus.write_to_8b(HwRegisterAddr::TIMA.addr(), tma);
                bus.trigger_interrupt(Interrupt::Timer);
            } else {
                bus.write_to_8b(HwRegisterAddr::TIMA.addr(), current_tima + 1);
            }
            proof {
                assert((ticks + 1) * tac_cycle == ticks * tac_cycle + tac_cycle)
                    by (nonlinear_arith);
                ticks = ticks + 1;
                assert(spec_tima_after(t0, tma, ticks) == if current_tima == 0xFF {
                    tma
                } else {
                    (current_tima + 1) as u8
                });
                if f0 & 0x04 != 0 {
                    assert(f0 | 0x04 == f0) by (bit_vector)
                        requires
                            f0 & 0x04 != 0,
                    ;
                }
                assert((f0 | 0x04) | 0x04 == f0 | 0x04) by (bit_vector);
            }
        }
        proof {
            vstd::arithmetic::div_mod::lemma_fundamental_div_mod_converse(
                acc0,
                tac_cycle as int,
                ticks as int,
                self.c_cycles_since_tima as int,
            );
        }
    }

    /// The TIMA tick interval selected by the low two bits of TAC.
    fn cycle_from_tac(tac: u8) -> (r: u64)
        ensures
            r == spec_tac_rate(tac),
            r >= 16,
    {
        let selector = tac & 0b11;
        if selector == 0b00 {
            1024
        } else if selector == 0b01 {
            16
        } else if selector == 0b10 {
            64
        } else {
            proof {
                assert(tac & 0b11 == 0b00 || tac & 0b11 == 0b01 || tac & 0b11 == 0b10 || tac
                    & 0b11 == 0b11) by (bit_vector);
            }
            256
        }
    }
}

/// `wrapping_add` on a 64-bit counter agrees with `wrap64`.
proof fn lemma_wrap64_wrapping_add(x: u64, y: u64)
    ensures
        wrap64(x + y) == if x + y > u64::MAX {
            (x + y - 0x1_0000_0000_0000_0000) as u64
        } else {
            (x + y) as u64
        },
{
    if x + y > u64::MAX {
        vstd::arithmetic::div_mod::lemma_mod_multiples_vanish(
            1,
            x + y - 0x1_0000_0000_0000_0000,
            0x1_0000_0000_0000_0000,
        );
        vstd::arithmetic::div_mod::lemma_small_mod(
            (x + y - 0x1_0000_0000_0000_0000) as nat,
            0x1_0000_0000_0000_0000,
        );
    } else {
        vstd::arithmetic::div_mod::lemma_small_mod((x + y) as nat, 0x1_0000_0000_0000_0000);
    }
}

/// One more wrapping DIV increment lands on `wrap8` of one more tick.
proof fn lemma_wrap8_inc(base: int, ticks: int)
    requires
        0 <= ticks,
        0 <= base < 256,
    ensures
        ({
            let current = wrap8(base + ticks);
            wrap8(base + (ticks + 1)) == if current == 0xFF {
                0u8
            } else {
                (current + 1) as u8
            }
        }),
{
    let current = wrap8(base + ticks);
    vstd::arithmetic::div_mod::lemma_mod_bound(base + ticks, 256);
    if current == 0xFF {
        vstd::arithmetic::div_mod::lemma_mod_add_multiples_vanish(base + ticks + 1 - 256, 256);
        assert((base + ticks + 1) % 256 == (base + ticks + 1 - 256) % 256);
        vstd::arithmetic::div_mod::lemma_fundamental_div_mod(base + ticks, 256);
        vstd::arithmetic::div_mod::lemma_small_mod(
            ((base + ticks) - 256 * ((base + ticks) / 256) + 1 - 256) as nat,
            256,
        );
    } else {
        vstd::arithmetic::div_mod::lemma_fundamental_div_mod(base + ticks, 256);
        vstd::arithmetic::div_mod::lemma_small_mod(
            ((base + ticks) - 256 * ((base + ticks) / 256) + 1) as nat,
            256,
        );
    }
}

} // verus!

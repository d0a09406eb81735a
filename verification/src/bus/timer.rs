use vstd::prelude::*;

use crate::bus::interrupts::Interrupts;
use crate::util::Address;
use crate::Cycles;

verus! {

/// The divider and the programmable timer (DIV, TIMA, TMA, TAC).
#[derive(Debug, Clone, Copy)]
pub struct Timer {
    pub div: u8,
    pub tima: u8,
    pub tma: u8,
    pub tac: u8,
    /// T-cycles towards the next TIMA increment.
    pub internalcnt: u32,
    /// T-cycles towards the next DIV increment.
    pub internaldiv: u32,
}

pub const DIV: u16 = 0xFF04;

pub const TIMA: u16 = 0xFF05;

pub const TMA: u16 = 0xFF06;

pub const TAC: u16 = 0xFF07;

/// The interrupt request bit of the timer.
pub const INTERRUPT_BIT: u8 = 0b100;

/// TIMA and whether it overflowed after `n` increments, reloading from `tma` on overflow.
pub open spec fn ticked(tima: u8, tma: u8, n: nat) -> (u8, bool)
    decreases n,
{
    if n == 0 {
        (tima, false)
    } else {
        let (t, overflowed) = ticked(tima, tma, (n - 1) as nat);
        if t == 0xFF {
            (tma, true)
        } else {
            ((t + 1) as u8, overflowed)
        }
    }
}

/// The number of T-cycles per TIMA increment that TAC selects.
pub open spec fn step_spec(tac: u8) -> u32 {
    if tac & 0b11 == 1 {
        16
    } else if tac & 0b11 == 2 {
        64
    } else if tac & 0b11 == 3 {
        256
    } else {
        1024
    }
}

impl Timer {
    /// The power-on state.
    pub open spec fn new_spec() -> Timer {
        Timer { div: 0, tima: 0, tma: 0, tac: 0, internalcnt: 0, internaldiv: 0 }
    }

    pub fn new() -> (r: Self)
        ensures
            r == Timer::new_spec(),
            r.div == 0 && r.tima == 0 && r.tma == 0 && r.tac == 0,
            r.internalcnt == 0 && r.internaldiv == 0,
    {
        Self { div: 0, tima: 0, tma: 0, tac: 0, internalcnt: 0, internaldiv: 0 }
    }

    /// The counters are below their periods.
    pub open spec fn wf(&self) -> bool {
        self.internaldiv < 256 && self.internalcnt < 1024
    }

    pub open spec fn enabled_spec(&self) -> bool {
        self.tac & 0b100 != 0
    }

    pub fn reset_div(&mut self)
        ensures
            *final(self) == (Timer { div: 0, internaldiv: 0, ..*old(self) }),
    {
        self.div = 0;
        self.internaldiv = 0;
    }

    pub open spec fn is_timer_address(address: u16) -> bool {
        0xFF04 <= address <= 0xFF07
    }

    /// A write to one of the timer registers; a write to DIV clears the divider.
    pub fn write(&mut self, a: &Address, v: u8)
        requires
            Timer::is_timer_address(a.0),
        ensures
            *final(self) == if a.0 == DIV {
                Timer { div: 0, internaldiv: 0, ..*old(self) }
            } else if a.0 == TIMA {
                Timer { tima: v, ..*old(self) }
            } else if a.0 == TMA {
                Timer { tma: v, ..*old(self) }
            } else {
                Timer { tac: v, ..*old(self) }
            },
    {
        let address = a.value();
        if address == DIV {
            self.reset_div();
        } else if address == TIMA {
            self.tima = v;
        } else if address == TMA {
            self.tma = v;
        } else {
            self.tac = v;
        }
    }

    pub open spec fn read_spec(&self, address: u16) -> u8 {
        if address == DIV {
            self.div
        } else if address == TIMA {
            self.tima
        } else if address == TMA {
            self.tma
        } else {
            0xF8 | self.tac
        }
    }

    pub fn read(&self, a: &Address) -> (r: u8)
        requires
            Timer::is_timer_address(a.0),
        ensures
            r == self.read_spec(a.0),
    {
        let address = a.value();
        if address == DIV {
            self.div
        } else if address == TIMA {
            self.tima
        } else if address == TMA {
            self.tma
        } else {
            0xF8 | self.tac
        }
    }

    /// Whether `post` and `post_i` are the timer and the interrupt controller after `cycles`
    /// T-cycles from `pre` and `pre_i`.
    #[verifier::opaque]
    pub open spec fn cycled(pre: Timer, post: Timer, pre_i: Interrupts, post_i: Interrupts, cycles: int) -> bool {
        &&& post.tma == pre.tma
        &&& post.tac == pre.tac
        &&& post.internaldiv == (pre.internaldiv + cycles) % 256
        &&& post.div == (pre.div + (pre.internaldiv + cycles) / 256) % 256
        &&& pre.enabled_spec() ==> {
            let total = pre.internalcnt + cycles;
            let step = step_spec(pre.tac) as int;
            let (t, overflowed) = ticked(pre.tima, pre.tma, (total / step) as nat);
            &&& post.internalcnt == total % step
            &&& post.tima == t
            &&& post_i == (Interrupts {
                i: if overflowed {
                    pre_i.i | INTERRUPT_BIT
                } else {
                    pre_i.i
                },
                ..pre_i
            })
        }
        &&& !pre.enabled_spec() ==> {
            &&& post.internalcnt == pre.internalcnt
            &&& post.tima == pre.tima
            &&& post_i == pre_i
        }
    }

    /// Advances the divider and, where enabled, the timer by `cycles` T-cycles.
    pub fn cycle(&mut self, i: &mut Interrupts, cycles: &Cycles)
        requires
            old(self).wf(),
            old(self).internaldiv + cycles.0 <= u32::MAX,
            old(self).enabled_spec() ==> old(self).internalcnt + cycles.0 <= u32::MAX,
        ensures
            final(self).wf(),
            Timer::cycled(*old(self), *final(self), *old(i), *final(i), cycles.0 as int),
    {
        reveal(Timer::cycled);
        let t: u32 = cycles.t() as u32;
        let ghost div0 = self.div as int;
        let ghost before = *self;
        let ghost total_div = self.internaldiv + t;
        self.internaldiv = self.internaldiv + t;
        let mut k: u32 = 0;
        while self.internaldiv >= 256
            invariant
                total_div == self.internaldiv + 256 * k,
                total_div <= u32::MAX,
                self.div == (div0 + k) % 256,
                t == cycles.0,
                before.enabled_spec() ==> before.internalcnt + t <= u32::MAX,
                self.internalcnt == before.internalcnt,
                self.tima == before.tima,
                self.tma == before.tma,
                self.tac == before.tac,
                before.internalcnt < 1024,
            decreases self.internaldiv,
        {
            self.div = self.div.wrapping_add(1);
            self.internaldiv = self.internaldiv - 256;
            k = k + 1;
        }
        proof {
            vstd::arithmetic::div_mod::lemma_fundamental_div_mod_converse(
                total_div as int,
                256,
                k as int,
                self.internaldiv as int,
            );
        }
        if self.enabled() {
            let ghost tima0 = self.tima;
            let ghost i0 = *i;
            let ghost mid = *self;
            let ghost total = self.internalcnt + t;
            self.internalcnt = self.internalcnt + t;
            let step = self.step();
            let mut n: u32 = 0;
            let mut overflowed = false;
            while self.internalcnt >= step
                invariant
                    step == step_spec(self.tac),
                    step > 0,
                    total == self.internalcnt + n * step,
                    step <= 1024,
                    self.internaldiv < 256,
                    self.tac == before.tac,
                    self.tma == before.tma,
                    self.div == mid.div,
                    self.internaldiv == mid.internaldiv,
                    total <= u32::MAX,
                    (self.tima, overflowed) == ticked(tima0, self.tma, n as nat),
                    *i == (Interrupts {
                        i: if overflowed {
                            i0.i | INTERRUPT_BIT
                        } else {
                            i0.i
                        },
                        ..i0
                    }),
                decreases self.internalcnt,
            {
                proof {
                    vstd::arithmetic::mul::lemma_mul_is_distributive_add_other_way(step as int, n as int, 1);
                }
                self.tima = self.tima.wrapping_add(1);
                if self.tima == 0 {
                    self.tima = self.tma;
                    proof {
                        let x = i0.i;
                        assert((x | 4u8) | 4u8 == x | 4u8) by (bit_vector);
                    }
                    i.i = i.i | INTERRUPT_BIT;
                    overflowed = true;
                }
                self.internalcnt = self.internalcnt - step;
                n = n + 1;
            }
            proof {
                vstd::arithmetic::div_mod::lemma_fundamental_div_mod_converse(
                    total as int,
                    step as int,
                    n as int,
                    self.internalcnt as int,
                );
            }
        }
    }

    fn step(&self) -> (r: u32)
        ensures
            r == step_spec(self.tac),
    {
        let bits = self.tac & 0b11;
        if bits == 1 {
            16
        } else if bits == 2 {
            64
        } else if bits == 3 {
            256
        } else {
            1024
        }
    }

    fn enabled(&self) -> (r: bool)
        ensures
            r == self.enabled_spec(),
    {
        self.tac & 0b100 != 0
    }

    pub fn div(&self) -> (r: u8)
        ensures
            r == self.div,
    {
        self.div
    }

    pub fn tima(&self) -> (r: u8)
        ensures
            r == self.tima,
    {
        self.tima
    }

    pub fn tma(&self) -> (r: u8)
        ensures
            r == self.tma,
    {
        self.tma
    }

    pub fn tac(&self) -> (r: u8)
        ensures
            r == self.tac,
    {
        self.tac
    }
}

} // verus!

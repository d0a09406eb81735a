use vstd::prelude::*;

use crate::util::Address;

verus! {

/// Whether the CPU runs, waits for an interrupt (HALT) or is stopped (STOP).
#[derive(Debug, Clone, Copy, PartialEq, Eq, Structural)]
pub enum PauseState {
    Halt,
    Stop,
    Running,
}

/// The interrupt master enable flag, whose changes by EI/DI take effect one instruction late.
#[derive(Debug, Clone, Copy)]
pub struct Ime {
    pub state: bool,
    /// A pending change: whether one more instruction must pass, and the new state.
    pub update: Option<(bool, bool)>,
}

impl Ime {
    pub fn new() -> (r: Self)
        ensures
            !r.state,
            r.update is None,
    {
        Self { state: false, update: None }
    }

    /// Schedules the flag to become `state` after the next instruction.
    pub fn set(&mut self, state: bool)
        ensures
            final(self).state == old(self).state,
            final(self).update == Some((true, state)),
    {
        self.update = Some((true, state));
    }

    /// The flag after one more instruction passes.
    pub open spec fn next(self) -> Ime {
        match self.update {
            Some((true, s)) => Ime { state: self.state, update: Some((false, s)) },
            Some((false, s)) => Ime { state: s, update: None },
            None => self,
        }
    }

    /// Advances a pending change by one instruction and returns the flag as it was before.
    pub fn cycle(&mut self) -> (r: bool)
        ensures
            r == old(self).state,
            *final(self) == old(self).next(),
    {
        let previous = self.state;
        match self.update {
            Some((true, s)) => {
                self.update = Some((false, s));
            },
            Some((false, s)) => {
                self.state = s;
                self.update = None;
            },
            None => {},
        }
        previous
    }
}

/// What the CPU is to do next, as the interrupt controller decides it.
#[derive(Debug, Clone, Copy, PartialEq, Eq, Structural)]
pub enum InterruptState {
    /// Execute the next instruction.
    Continue,
    /// Call the interrupt handler at the given vector.
    Interrupt(Address),
    /// Stay halted until an interrupt is requested.
    Halt,
    /// Stay stopped.
    Stop,
}

impl InterruptState {
    pub fn default() -> (r: Self)
        ensures
            r == InterruptState::Continue,
    {
        InterruptState::Continue
    }
}

/// The interrupt request (IF) and enable (IE) registers with the CPU's pause state.
#[derive(Debug, Clone, Copy)]
pub struct Interrupts {
    pub i: u8,
    pub ie: u8,
    pub ime: Ime,
    pub pause: PauseState,
    pub halt_bug: bool,
}

/// The index of the lowest set bit of `bits`, which must hold one of bits 0 to 4.
pub open spec fn lowest_bit(bits: u8) -> u16 {
    if bits & 0x01 != 0 {
        0
    } else if bits & 0x02 != 0 {
        1
    } else if bits & 0x04 != 0 {
        2
    } else if bits & 0x08 != 0 {
        3
    } else {
        4
    }
}

pub open spec fn bit_mask(bit: u16) -> u8 {
    if bit == 0 {
        0x01
    } else if bit == 1 {
        0x02
    } else if bit == 2 {
        0x04
    } else if bit == 3 {
        0x08
    } else {
        0x10
    }
}

impl Interrupts {
    /// The power-on state.
    pub open spec fn new_spec() -> Interrupts {
        Interrupts { i: 0, ie: 0, ime: Ime { state: false, update: None }, pause: PauseState::Running, halt_bug: false }
    }

    pub fn new() -> (r: Self)
        ensures
            r == Interrupts::new_spec(),
            r.i == 0,
            r.ie == 0,
            r.ime == (Ime { state: false, update: None }),
            r.pause == PauseState::Running,
            !r.halt_bug,
    {
        Self { i: 0, ie: 0, ime: Ime::new(), pause: PauseState::Running, halt_bug: false }
    }

    /// The requested interrupts that are enabled.
    pub open spec fn pending(self) -> u8 {
        self.ie & self.i & 0x1F
    }

    fn interrupt_bits(&self) -> (r: u8)
        ensures
            r == self.pending(),
    {
        self.ie & self.i & 0x1F
    }

    /// The controller and the decision after one interrupt check.
    pub open spec fn interrupt_spec(self) -> (Interrupts, InterruptState) {
        let ime = self.ime.state;
        let s = Interrupts { ime: self.ime.next(), ..self };
        if self.pause == PauseState::Stop {
            (s, InterruptState::Stop)
        } else if self.pause != PauseState::Halt && !ime {
            (s, InterruptState::Continue)
        } else if self.pending() == 0 {
            (
                s,
                if self.pause == PauseState::Halt {
                    InterruptState::Halt
                } else {
                    InterruptState::Continue
                },
            )
        } else if !ime {
            (Interrupts { pause: PauseState::Running, ..s }, InterruptState::Continue)
        } else {
            let bit = lowest_bit(self.pending());
            (
                Interrupts {
                    i: self.i & !bit_mask(bit),
                    pause: PauseState::Running,
                    ime: Ime { state: false, ..s.ime },
                    ..s
                },
                InterruptState::Interrupt(Address((0x40 + 8 * bit) as u16)),
            )
        }
    }

    /// Checks for an interrupt to serve before the next instruction.
    pub fn interrupt(&mut self) -> (r: InterruptState)
        ensures
            (*final(self), r) == old(self).interrupt_spec(),
    {
        let ime = self.ime.cycle();

        if self.stopped() {
            return InterruptState::Stop;
        }

        if !self.halted() && !ime {
            return InterruptState::Continue;
        }

        let bits = self.interrupt_bits();
        if bits == 0 {
            if self.halted() {
                InterruptState::Halt
            } else {
                InterruptState::Continue
            }
        } else {
            if !ime {
                self.pause = PauseState::Running;
                return InterruptState::Continue;
            }
            let (bit, mask): (u16, u8) = if bits & 0x01 != 0 {
                (0, 0x01)
            } else if bits & 0x02 != 0 {
                (1, 0x02)
            } else if bits & 0x04 != 0 {
                (2, 0x04)
            } else if bits & 0x08 != 0 {
                (3, 0x08)
            } else {
                (4, 0x10)
            };
            self.i = self.i & !mask;
            self.pause = PauseState::Running;
            self.ime.state = false;
            InterruptState::Interrupt(Address::new(0x40 + 8 * bit))
        }
    }

    /// Enters HALT; the halt bug is armed when an enabled interrupt is already requested.
    pub fn set_halt(&mut self)
        ensures
            *final(self) == (Interrupts {
                pause: PauseState::Halt,
                halt_bug: old(self).pending() != 0,
                ..*old(self)
            }),
    {
        self.pause = PauseState::Halt;
        self.halt_bug = self.interrupt_bits() != 0;
    }

    /// Whether the halt bug was armed; disarms it.
    pub fn halt_bug(&mut self) -> (r: bool)
        ensures
            r == old(self).halt_bug,
            *final(self) == (Interrupts { halt_bug: false, ..*old(self) }),
    {
        let bug = self.halt_bug;
        self.halt_bug = false;
        bug
    }

    pub fn set_stop(&mut self, value: bool)
        ensures
            *final(self) == (Interrupts {
                pause: if value {
                    PauseState::Stop
                } else {
                    PauseState::Running
                },
                ..*old(self)
            }),
    {
        self.pause = if value {
            PauseState::Stop
        } else {
            PauseState::Running
        };
    }

    /// Schedules the master enable flag to become `value` after the next instruction.
    pub fn set_ime(&mut self, value: bool)
        ensures
            *final(self) == (Interrupts { ime: Ime { update: Some((true, value)), ..old(self).ime }, ..*old(self) }),
    {
        self.ime.set(value);
    }

    pub fn halted(&self) -> (r: bool)
        ensures
            r == (self.pause == PauseState::Halt),
    {
        match self.pause {
            PauseState::Halt => true,
            _ => false,
        }
    }

    pub fn stopped(&self) -> (r: bool)
        ensures
            r == (self.pause == PauseState::Stop),
    {
        match self.pause {
            PauseState::Stop => true,
            _ => false,
        }
    }

    pub fn ie(&self) -> (r: u8)
        ensures
            r == self.ie,
    {
        self.ie
    }

    pub fn ime(&self) -> (r: bool)
        ensures
            r == self.ime.state,
    {
        self.ime.state
    }
}

} // verus!

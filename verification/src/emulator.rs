//! The emulator as the front end drives it: a machine, optionally a debugger, and the loop that
//! runs the machine between two frames.
use vstd::prelude::*;

use std::time::Instant;

use crate::bus::Bus;
use crate::cartridge::{loaded, AnyCartridge, Cartridge, CartridgeError};
use crate::cpu::registers::Registers;
use crate::debugger::{Debugger, ExecutionHistory};
use crate::util::Controls;
use crate::{machine_cycled, GameboyColor, GameboyCycle};

verus! {

#[verifier::external_type_specification]
#[verifier::external_body]
pub struct ExInstant(Instant);

/// What the front end is to do after an update.
pub enum ApplicationUpdate {
    /// Update again right away.
    Continue,
    /// A frame is complete: show it.
    Render,
    /// Update again at the given time.
    WaitUntil(Instant),
    /// The machine cannot go on.
    Exit,
}

/// A key of the keyboard, as far as the front end tells them apart.
#[derive(Debug, Clone, Copy, PartialEq, Eq, Structural)]
pub enum Key {
    ArrowUp,
    ArrowDown,
    ArrowLeft,
    ArrowRight,
    /// A key that types one character.
    Character(char),
    Other,
}

/// The button that a key stands for: the arrows for the pad, A for Start, S for Select, Z for
/// A and X for B.
pub open spec fn control_spec(key: Key) -> Option<Controls> {
    match key {
        Key::ArrowUp => Some(Controls::Up),
        Key::ArrowDown => Some(Controls::Down),
        Key::ArrowLeft => Some(Controls::Left),
        Key::ArrowRight => Some(Controls::Right),
        Key::Character(c) => if c == 'a' {
            Some(Controls::Start)
        } else if c == 's' {
            Some(Controls::Select)
        } else if c == 'z' {
            Some(Controls::A)
        } else if c == 'x' {
            Some(Controls::B)
        } else {
            None
        },
        Key::Other => None,
    }
}

/// The button that a key stands for, if any.
pub fn control_for_key(key: Key) -> (r: Option<Controls>)
    ensures
        r == control_spec(key),
{
    match key {
        Key::ArrowUp => Some(Controls::Up),
        Key::ArrowDown => Some(Controls::Down),
        Key::ArrowLeft => Some(Controls::Left),
        Key::ArrowRight => Some(Controls::Right),
        Key::Character(c) => {
            if c == 'a' {
                Some(Controls::Start)
            } else if c == 's' {
                Some(Controls::Select)
            } else if c == 'z' {
                Some(Controls::A)
            } else if c == 'x' {
                Some(Controls::B)
            } else {
                None
            }
        },
        Key::Other => None,
    }
}

/// The kinds of file the front end opens.
#[derive(Debug, Clone, Copy, PartialEq, Eq, Structural)]
pub enum DataType {
    Rom,
    Ram,
}

impl DataType {
    /// The name of the file dialog's filter.
    pub fn filter_name(&self) -> (r: &'static str)
        ensures
            *self == DataType::Rom ==> r@ == "Gameboy ROM"@,
            *self == DataType::Ram ==> r@ == "Gameboy RAM Save"@,
    {
        match self {
            DataType::Rom => "Gameboy ROM",
            DataType::Ram => "Gameboy RAM Save",
        }
    }

    /// The file extensions of the file dialog's filter.
    pub fn extensions(&self) -> (r: Vec<&'static str>)
        ensures
            *self == DataType::Rom ==> r@.len() == 2 && r@[0]@ == "gb"@ && r@[1]@ == "gbc"@,
            *self == DataType::Ram ==> r@.len() == 1 && r@[0]@ == "rsav"@,
    {
        match self {
            DataType::Rom => {
                let mut v: Vec<&'static str> = Vec::new();
                v.push("gb");
                v.push("gbc");
                v
            },
            DataType::Ram => {
                let mut v: Vec<&'static str> = Vec::new();
                v.push("rsav");
                v
            },
        }
    }
}

/// Why the update loop stopped.
#[derive(Debug, Clone, Copy, PartialEq, Eq, Structural)]
pub enum Ending {
    /// The debugger holds the machine.
    Held,
    /// The T-cycles allowed have run.
    Spent,
    /// A frame was completed.
    Render,
    /// The CPU failed.
    Failed,
    /// The count of T-cycles would leave its type.
    Saturated,
}

/// What a round of the update loop leads to: another round, with the T-cycles run so far, or
/// the end of the update.
#[derive(Debug, Clone, Copy, PartialEq, Eq, Structural)]
pub enum Round {
    Next(usize),
    End(Ending),
}

/// The answer of an update that ended so.
pub open spec fn answer(ending: Ending, wait: Option<Instant>) -> ApplicationUpdate {
    match ending {
        Ending::Render => ApplicationUpdate::Render,
        Ending::Failed => ApplicationUpdate::Exit,
        _ => match wait {
            Some(i) => ApplicationUpdate::WaitUntil(i),
            None => ApplicationUpdate::Continue,
        },
    }
}

/// The machine and, where enabled, the debugger.
pub struct Emulator {
    pub gameboy: GameboyColor,
    pub debugger: Option<Debugger>,
}

impl Emulator {
    pub open spec fn wf(&self) -> bool {
        self.gameboy.wf()
    }

    /// A round of the update loop from `pre` with `cycles` T-cycles run so far, its stages
    /// named: the debugger after its decision `d1`, whether to go on, the machine cycle `res`
    /// with the registers `regs2`, the bus `mid` after the CPU and `bus2` after the rest.
    pub open spec fn round_with<C: Cartridge>(
        pre: Emulator,
        pre_cart: C,
        cycles: usize,
        max: Option<usize>,
        d1: Option<Debugger>,
        go: bool,
        res: GameboyCycle,
        regs2: Registers,
        mid: Bus,
        bus2: Bus,
        post: Emulator,
        post_cart: C,
        round: Round,
    ) -> bool {
        &&& match pre.debugger {
            Some(d) => d1 matches Some(d1v) && Debugger::decided(d, d1v, pre.gameboy.cpu.registers.pc, go),
            None => d1 is None && go,
        }
        &&& if !go || (max matches Some(m) && cycles > m) {
            &&& post.debugger == d1
            &&& post.gameboy.cpu.registers == pre.gameboy.cpu.registers
            &&& post.gameboy.bus == pre.gameboy.bus
            &&& post_cart == pre_cart
            &&& round == Round::End(
                if !go {
                    Ending::Held
                } else {
                    Ending::Spent
                },
            )
        } else {
            &&& machine_cycled(
                pre.gameboy.cpu.registers,
                pre.gameboy.bus,
                pre_cart,
                res,
                regs2,
                mid,
                bus2,
                post_cart,
            )
            &&& post.gameboy.cpu.registers == regs2
            &&& match res.cpu {
                Err(_) => post.gameboy.bus == bus2 && post.debugger == d1 && round == Round::End(
                    Ending::Failed,
                ),
                Ok(exec) => {
                    &&& match d1 {
                        Some(d) => post.debugger matches Some(d2) && Debugger::recorded(
                            d,
                            d2,
                            bus2.serial,
                            post.gameboy.bus.serial,
                            exec,
                        ) && post.gameboy.bus == (Bus { serial: post.gameboy.bus.serial, ..bus2 }),
                        None => post.debugger is None && post.gameboy.bus == bus2,
                    }
                    &&& round == if res.render {
                        Round::End(Ending::Render)
                    } else if cycles + exec.cycles.0 > usize::MAX {
                        Round::End(Ending::Saturated)
                    } else {
                        Round::Next((cycles + exec.cycles.0) as usize)
                    }
                },
            }
        }
    }

    /// A round of the update loop: the debugger decides; unless it holds the machine or the
    /// T-cycles allowed have run, the machine runs one cycle and the debugger records it.
    pub open spec fn round<C: Cartridge>(
        pre: Emulator,
        pre_cart: C,
        cycles: usize,
        max: Option<usize>,
        post: Emulator,
        post_cart: C,
        round: Round,
    ) -> bool {
        exists|d1: Option<Debugger>, go: bool, res: GameboyCycle, regs2: Registers, mid: Bus, bus2: Bus|
            #[trigger] Emulator::round_with(
                pre,
                pre_cart,
                cycles,
                max,
                d1,
                go,
                res,
                regs2,
                mid,
                bus2,
                post,
                post_cart,
                round,
            )
    }

    /// Whether `trace` holds the states at the start of each round of an update from `pre` to
    /// `post` that ended so.
    pub open spec fn ran<C: Cartridge>(
        pre: Emulator,
        pre_cart: C,
        max: Option<usize>,
        trace: Seq<(Emulator, C, usize)>,
        post: Emulator,
        post_cart: C,
        ending: Ending,
    ) -> bool {
        &&& trace.len() >= 1
        &&& trace[0] == (pre, pre_cart, 0usize)
        &&& forall|i: int|
            0 <= i < trace.len() - 1 ==> Emulator::round(
                #[trigger] trace[i].0,
                trace[i].1,
                trace[i].2,
                max,
                trace[i + 1].0,
                trace[i + 1].1,
                Round::Next(trace[i + 1].2),
            )
        &&& Emulator::round(
            trace.last().0,
            trace.last().1,
            trace.last().2,
            max,
            post,
            post_cart,
            Round::End(ending),
        )
    }

    /// A machine in its power-on state; with the debugger, its serial receiver is connected
    /// and the bus captures the bytes sent.
    pub fn new(debugger: bool) -> (r: Self)
        ensures
            r.wf(),
            r.gameboy.cpu.registers == Registers::default_spec(),
            r.debugger is Some == debugger,
            r.gameboy.bus.serial.output is Some == debugger,
            r.debugger matches Some(d) ==> !d.run && !d.step && d.serial.connection is Some,
            r.gameboy.bus.as_built(),
            r.debugger matches Some(d) ==> d.history.history@ == Seq::<ExecutionHistory>::empty()
                && d.breakpoint.list@ == Map::<u16, bool>::empty() && d.memory.address is None,
    {
        let mut gameboy = GameboyColor::new();
        let debugger = if debugger {
            let mut d = Debugger::new();
            d.create_serial_callback();
            gameboy.bus.set_serial_callback(true);
            Some(d)
        } else {
            None
        };
        Self { gameboy, debugger }
    }

    /// Loads a ROM image and resets the machine for it.
    pub fn open_rom(&mut self, rom: &[u8]) -> (r: Result<AnyCartridge, CartridgeError>)
        requires
            old(self).wf(),
        ensures
            final(self).wf(),
            loaded(rom@, r),
            r is Ok ==> final(self).gameboy.cpu.registers == Registers::default_spec(),
            r is Err ==> final(self).gameboy.cpu.registers == old(self).gameboy.cpu.registers
                && final(self).gameboy.bus == old(self).gameboy.bus,
    {
        match GameboyColor::load(rom) {
            Ok(cart) => {
                self.gameboy.reset(&cart);
                Ok(cart)
            },
            Err(err) => Err(err),
        }
    }

    /// Loads a saved external RAM into the cartridge and resets the machine; refused (with
    /// nothing changed) where the sizes differ.
    pub fn open_ram<C: Cartridge>(&mut self, cart: &mut C, ram: &[u8]) -> (r: bool)
        requires
            old(self).wf(),
        ensures
            final(self).wf(),
            r == (ram@.len() == old(cart).ram_spec().len()),
            r ==> final(cart).ram_spec() == ram@ && final(self).gameboy.cpu.registers
                == Registers::default_spec(),
            !r ==> final(cart).ram_spec() == old(cart).ram_spec(),
            !r ==> final(self).gameboy.cpu.registers == old(self).gameboy.cpu.registers,
            final(cart).rom_spec() == old(cart).rom_spec(),
    {
        if ram.len() != cart.ram().len() {
            return false;
        }
        let loaded = cart.load_ram(ram);
        self.gameboy.reset(cart);
        loaded
    }

    /// Runs the machine until the debugger holds it, more than `max_cycles` T-cycles have run,
    /// a frame is completed (`Render`) or the CPU fails (`Exit`); otherwise answers
    /// `WaitUntil(wait)` where a time is given, else `Continue`.
    #[verifier::rlimit(50)]
    pub fn update<C: Cartridge>(&mut self, cart: &mut C, max_cycles: Option<usize>, wait: Option<Instant>) -> (r:
        ApplicationUpdate)
        requires
            old(self).wf(),
        ensures
            final(self).wf(),
            exists|trace: Seq<(Emulator, C, usize)>, ending: Ending|
                #[trigger] Emulator::ran(
                    *old(self),
                    *old(cart),
                    max_cycles,
                    trace,
                    *final(self),
                    *final(cart),
                    ending,
                ) && r == answer(ending, wait),
    {
        let no_render = match wait {
            Some(instant) => ApplicationUpdate::WaitUntil(instant),
            None => ApplicationUpdate::Continue,
        };
        let mut cycles: usize = 0;
        let ghost mut trace: Seq<(Emulator, C, usize)> = seq![(*self, *cart, 0usize)];
        let ghost mut ending: Ending = Ending::Held;
        loop
            invariant_except_break
                self.wf(),
                trace.len() >= 1,
                trace[0] == (*old(self), *old(cart), 0usize),
                forall|i: int|
                    0 <= i < trace.len() - 1 ==> Emulator::round(
                        #[trigger] trace[i].0,
                        trace[i].1,
                        trace[i].2,
                        max_cycles,
                        trace[i + 1].0,
                        trace[i + 1].1,
                        Round::Next(trace[i + 1].2),
                    ),
                trace.last() == (*self, *cart, cycles),
                no_render == answer(Ending::Held, wait),
            ensures
                self.wf(),
                Emulator::ran(*old(self), *old(cart), max_cycles, trace, *self, *cart, ending),
                no_render == answer(ending, wait),
            decreases usize::MAX - cycles,
        {
            let ghost pre = *self;
            let ghost pre_cart = *cart;
            let go = match self.debugger.as_mut() {
                Some(d) => d.should_step(&self.gameboy),
                None => true,
            };
            let ghost d1 = self.debugger;
            let spent = match max_cycles {
                Some(max) => cycles > max,
                None => false,
            };
            if !go || spent {
                proof {
                    ending = if !go {
                        Ending::Held
                    } else {
                        Ending::Spent
                    };
                    let res: GameboyCycle = arbitrary();
                    assert(Emulator::round_with(
                        pre,
                        pre_cart,
                        cycles,
                        max_cycles,
                        d1,
                        go,
                        res,
                        pre.gameboy.cpu.registers,
                        pre.gameboy.bus,
                        pre.gameboy.bus,
                        *self,
                        *cart,
                        Round::End(ending),
                    ));
                }
                break ;
            }
            let ghost g1 = self.gameboy;
            let ghost regs0 = self.gameboy.cpu.registers;
            let ghost bus0 = self.gameboy.bus;
            let ghost cart0 = *cart;
            let result = self.gameboy.cycle(cart);
            let ghost mid = choose|mid: Bus|
                #[trigger] machine_cycled(
                    regs0,
                    bus0,
                    cart0,
                    result,
                    self.gameboy.cpu.registers,
                    mid,
                    self.gameboy.bus,
                    *cart,
                );
            let ghost regs2 = self.gameboy.cpu.registers;
            let ghost bus2 = self.gameboy.bus;
            proof {
                reveal(machine_cycled);
                crate::cpu::lemma_cycle_cycles(regs0, bus0, cart0, result.cpu, regs2, mid, *cart);
            }
            match result.cpu {
                Ok(exec) => {
                    match self.debugger.as_mut() {
                        Some(d) => d.on_cycle(&exec, &mut self.gameboy.bus.serial),
                        None => {},
                    }
                    if result.render {
                        proof {
                            assert(Emulator::round_with(
                                pre,
                                pre_cart,
                                cycles,
                                max_cycles,
                                d1,
                                go,
                                result,
                                regs2,
                                mid,
                                bus2,
                                *self,
                                *cart,
                                Round::End(Ending::Render),
                            ));
                            assert(Emulator::ran(
                                *old(self),
                                *old(cart),
                                max_cycles,
                                trace,
                                *self,
                                *cart,
                                Ending::Render,
                            ));
                        }
                        return ApplicationUpdate::Render;
                    }
                    if cycles > usize::MAX - exec.cycles.0 {
                        proof {
                            ending = Ending::Saturated;
                            assert(Emulator::round_with(
                                pre,
                                pre_cart,
                                cycles,
                                max_cycles,
                                d1,
                                go,
                                result,
                                regs2,
                                mid,
                                bus2,
                                *self,
                                *cart,
                                Round::End(ending),
                            ));
                        }
                        break ;
                    }
                    cycles = cycles + exec.cycles.0;
                    proof {
                        assert(Emulator::round_with(
                            pre,
                            pre_cart,
                            trace.last().2,
                            max_cycles,
                            d1,
                            go,
                            result,
                            regs2,
                            mid,
                            bus2,
                            *self,
                            *cart,
                            Round::Next(cycles),
                        ));
                        let old_trace = trace;
                        trace = trace.push((*self, *cart, cycles));
                        assert forall|i: int| 0 <= i < trace.len() - 1 implies Emulator::round(
                            #[trigger] trace[i].0,
                            trace[i].1,
                            trace[i].2,
                            max_cycles,
                            trace[i + 1].0,
                            trace[i + 1].1,
                            Round::Next(trace[i + 1].2),
                        ) by {
                            if i < old_trace.len() - 1 {
                                assert(old_trace[i] == trace[i] && old_trace[i + 1] == trace[i + 1]);
                                assert(Emulator::round(
                                    old_trace[i].0,
                                    old_trace[i].1,
                                    old_trace[i].2,
                                    max_cycles,
                                    old_trace[i + 1].0,
                                    old_trace[i + 1].1,
                                    Round::Next(old_trace[i + 1].2),
                                ));
                            }
                        }
                    }
                },
                Err(_) => {
                    proof {
                        assert(Emulator::round_with(
                            pre,
                            pre_cart,
                            cycles,
                            max_cycles,
                            d1,
                            go,
                            result,
                            regs2,
                            mid,
                            bus2,
                            *self,
                            *cart,
                            Round::End(Ending::Failed),
                        ));
                        assert(Emulator::ran(
                            *old(self),
                            *old(cart),
                            max_cycles,
                            trace,
                            *self,
                            *cart,
                            Ending::Failed,
                        ));
                    }
                    return ApplicationUpdate::Exit;
                },
            }
        }
        no_render
    }
}

} // verus!

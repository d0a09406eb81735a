pub mod bus;
pub mod cpu;
pub mod cartridge;
pub mod debugger;
pub mod emulator;
pub mod resample;
pub mod laws;
pub mod util;

pub use crate::cartridge::{load, AnyCartridge, Cartridge, CartridgeError};
pub use crate::util::{Address, Controls, Memory, Width};

use vstd::prelude::*;

use crate::bus::cgb::Cgb;
use crate::bus::interrupts::Interrupts;
use crate::bus::joypad::Joypad;
use crate::bus::ppu::pixel::Pixel;
use crate::bus::timer::Timer;
use crate::bus::Bus;
use crate::cartridge::loaded;
use crate::cpu::registers::Registers;
use crate::cpu::{cycled, lemma_cycle_cycles, CycleError, CycleExecution, CPU};

verus! {

/// A number of T-cycles (ticks of the 4 MiHz master clock).
#[derive(Debug, Clone, Copy, PartialEq, Eq, Structural)]
pub struct Cycles(pub usize);

impl Cycles {
    pub fn new(cycles: usize) -> (r: Self)
        ensures
            r.0 == cycles,
    {
        Self(cycles)
    }

    /// The count in T-cycles.
    pub fn t(&self) -> (r: usize)
        ensures
            r == self.0,
    {
        self.0
    }

    /// The count in M-cycles (four T-cycles each), rounded down.
    pub fn m(&self) -> (r: usize)
        ensures
            r == self.0 / 4,
    {
        self.0 / 4
    }

    /// Adds `rhs` to the count.
    pub fn add_assign(&mut self, rhs: Self)
        requires
            old(self).0 + rhs.0 <= usize::MAX,
        ensures
            final(self).0 == old(self).0 + rhs.0,
    {
        self.0 = self.0 + rhs.0;
    }

    pub fn mul(self, rhs: usize) -> (r: Self)
        requires
            self.0 * rhs <= usize::MAX,
        ensures
            r.0 == self.0 * rhs,
    {
        Self(self.0 * rhs)
    }

    pub fn div(self, rhs: usize) -> (r: Self)
        requires
            rhs != 0,
        ensures
            r.0 == self.0 / rhs,
    {
        Self(self.0 / rhs)
    }
}

/// The master clock: T-cycles per second.
pub const CLOCK_SPEED: usize = 4194304;

/// A Game Boy Color: the CPU and everything on its bus but the cartridge.
pub struct GameboyColor {
    pub cpu: CPU,
    pub bus: Bus,
}

/// What one cycle of the machine did.
#[derive(Debug, Clone, Copy)]
pub struct GameboyCycle {
    pub cpu: Result<CycleExecution, CycleError>,
    /// Whether a frame was completed.
    pub render: bool,
}

/// Whether `r` and the state after are what one cycle of the machine makes of the state
/// before: the CPU cycle takes the bus to `mid`, and the rest of the machine then runs for the
/// T-cycles it took (not at all where it failed).
#[verifier::opaque]
pub open spec fn machine_cycled<C: Cartridge>(
    regs: Registers,
    bus: Bus,
    cart: C,
    r: GameboyCycle,
    post_regs: Registers,
    mid: Bus,
    post: Bus,
    post_cart: C,
) -> bool {
    &&& cycled(regs, bus, cart, r.cpu, post_regs, mid, post_cart)
    &&& match r.cpu {
        Ok(exec) => Bus::cycled(mid, post, post_cart, exec, r.render),
        Err(_) => post == mid && !r.render,
    }
}

impl GameboyColor {
    pub open spec fn wf(&self) -> bool {
        self.bus.wf()
    }

    /// A machine in its power-on state.
    pub fn new() -> (r: Self)
        ensures
            r.wf(),
            r.cpu.registers == Registers::default_spec(),
            r.bus.interrupts == Interrupts::new_spec(),
            r.bus.cgb == Cgb::new_spec(),
            r.bus.timer == Timer::new_spec(),
            r.bus.joypad == Joypad::new_spec(),
            r.bus.serial.output is None,
            r.bus.apu.samples is None,
            r.bus.as_built(),
    {
        Self { cpu: CPU::new(), bus: Bus::new() }
    }

    /// Builds the cartridge that a ROM image describes.
    pub fn load(data: &[u8]) -> (r: Result<AnyCartridge, CartridgeError>)
        ensures
            loaded(data@, r),
    {
        cartridge::load(data)
    }

    /// Runs one CPU cycle and the rest of the machine for as long as it took.
    pub fn cycle<C: Cartridge>(&mut self, cart: &mut C) -> (r: GameboyCycle)
        requires
            old(self).wf(),
        ensures
            final(self).wf(),
            exists|mid: Bus|
                #[trigger] machine_cycled(
                    old(self).cpu.registers,
                    old(self).bus,
                    *old(cart),
                    r,
                    final(self).cpu.registers,
                    mid,
                    final(self).bus,
                    *final(cart),
                ),
    {
        reveal(machine_cycled);
        let ghost regs0 = self.cpu.registers;
        let ghost bus0 = self.bus;
        let ghost cart0 = *cart;
        let cpu = self.cpu.cycle(cart, &mut self.bus);
        let ghost mid = self.bus;
        proof {
            lemma_cycle_cycles(regs0, bus0, cart0, cpu, self.cpu.registers, mid, *cart);
        }
        let render = match cpu {
            Ok(exec) => self.bus.cycle(cart, &exec),
            Err(_) => false,
        };
        let r = GameboyCycle { cpu, render };
        proof {
            assert(machine_cycled(regs0, bus0, cart0, r, self.cpu.registers, mid, self.bus, *cart));
        }
        r
    }

    /// Brings the machine back to its power-on state for the cartridge `cart`; attached
    /// consumers of serial bytes and audio samples stay attached.
    pub fn reset<C: Cartridge>(&mut self, cart: &C)
        requires
            old(self).wf(),
        ensures
            final(self).wf(),
            final(self).cpu.registers == Registers::default_spec(),
            final(self).bus.interrupts == Interrupts::new_spec(),
            final(self).bus.cgb == (Cgb { enabled: cart.read_spec(0x143) & 0x80 != 0, ..Cgb::new_spec() }),
            final(self).bus.timer == Timer::new_spec(),
            final(self).bus.joypad == Joypad::new_spec(),
            final(self).bus.serial.output == old(self).bus.serial.output,
            final(self).bus.apu.samples == old(self).bus.apu.samples,
            !final(self).bus.dma.is_active_spec(),
            final(self).bus.powered_on(),
    {
        self.cpu.reset();
        self.bus.reset();
        self.bus.load(cart);
    }

    /// Records a button press or release.
    pub fn update_input(&mut self, button: Controls, pressed: bool)
        ensures
            final(self).cpu.registers == old(self).cpu.registers,
            final(self).bus.joypad.state == Joypad::updated_state(
                old(self).bus.joypad.state,
                button,
                pressed,
            ),
            final(self).bus.joypad.select == old(self).bus.joypad.select,
            final(self).bus.interrupts == (Interrupts {
                i: if pressed {
                    old(self).bus.interrupts.i
                } else {
                    old(self).bus.interrupts.i | crate::bus::joypad::INTERRUPT_BIT
                },
                ..old(self).bus.interrupts
            }),
            final(self).bus.ppu == old(self).bus.ppu,
            final(self).bus.wram == old(self).bus.wram,
            final(self).bus.timer == old(self).bus.timer,
    {
        self.bus.update_input(button, pressed);
    }

    /// Interrupts are served by the CPU cycle; there is nothing left to do here.
    pub fn handle_interrupts(&mut self)
        ensures
            final(self).cpu.registers == old(self).cpu.registers,
            final(self).bus == old(self).bus,
    {
    }

    /// The picture as RGBA bytes, row by row, every pixel opaque.
    pub fn frame_rgba(&self) -> (r: Vec<u8>)
        requires
            self.wf(),
        ensures
            r@.len() == 4 * 23040,
            forall|i: int|
                0 <= i < 23040 ==> {
                    &&& #[trigger] r@[4 * i] == self.bus.ppu.framebuffer@[i].rgb[0]
                    &&& r@[4 * i + 1] == self.bus.ppu.framebuffer@[i].rgb[1]
                    &&& r@[4 * i + 2] == self.bus.ppu.framebuffer@[i].rgb[2]
                    &&& r@[4 * i + 3] == 0xFF
                },
    {
        let frame = self.bus.ppu.framebuffer();
        let mut out: Vec<u8> = Vec::new();
        let mut i: usize = 0;
        while i < frame.len()
            invariant
                frame@ == self.bus.ppu.framebuffer@,
                frame@.len() == 23040,
                i <= frame@.len(),
                out@.len() == 4 * i,
                forall|j: int|
                    0 <= j < i ==> {
                        &&& #[trigger] out@[4 * j] == frame@[j].rgb[0]
                        &&& out@[4 * j + 1] == frame@[j].rgb[1]
                        &&& out@[4 * j + 2] == frame@[j].rgb[2]
                        &&& out@[4 * j + 3] == 0xFF
                    },
            decreases frame@.len() - i,
        {
            let p = frame[i];
            let ghost before = out@;
            out.push(p.rgb[0]);
            out.push(p.rgb[1]);
            out.push(p.rgb[2]);
            out.push(0xFF);
            proof {
                assert(out@ == before + seq![p.rgb[0], p.rgb[1], p.rgb[2], 0xFFu8]);
                assert forall|j: int| 0 <= j < i + 1 implies {
                    &&& #[trigger] out@[4 * j] == frame@[j].rgb[0]
                    &&& out@[4 * j + 1] == frame@[j].rgb[1]
                    &&& out@[4 * j + 2] == frame@[j].rgb[2]
                    &&& out@[4 * j + 3] == 0xFF
                } by {
                    if j < i {
                        assert(before[4 * j] == frame@[j].rgb[0]);
                    }
                }
            }
            i = i + 1;
        }
        out
    }

    /// The picture, row by row.
    pub fn framebuffer(&self) -> (r: &[Pixel])
        ensures
            r@ == self.bus.ppu.framebuffer@,
    {
        self.bus.ppu.framebuffer()
    }
}

} // verus!

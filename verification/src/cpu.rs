pub mod registers;
pub mod semantics;

use vstd::prelude::*;

use crate::bus::interrupts::InterruptState;
use crate::bus::Bus;
use crate::cartridge::Cartridge;
use crate::cpu::registers::{
    flag_c, flag_h, flag_n, flag_z, lemma_make_f, make_f, DReg, Reg, Registers, FLAG_CARRY,
    FLAG_HALF_CARRY, FLAG_NEGATIVE, FLAG_ZERO,
};
use crate::cpu::semantics::{
    lemma_outcome_cycles,
    accumulator, add8, add_hl, add_signed, alu, block0, block1, block2, block3, call, call_cc,
    call_push, cb, cc, control, control_high, daa, dec8, inc8, indirect, jump_io, load16, load8,
    misc, stack, step16,
    inc_dec, next_pc, outcome, performed, push, rd, rd16, ret, sext, shift_flags, shift_result,
    sub8, sub8_flags, wrap16, wrap8, Signal,
};
use crate::util::{Address, Width};
use crate::Cycles;

verus! {

/// An instruction's first byte.
#[derive(Debug, Clone, Copy, PartialEq, Eq, Structural, PartialOrd, Ord, Hash)]
pub struct Opcode(pub u8);

/// A failure of the memory bus as the CPU uses it.
#[derive(Debug, Clone, Copy, PartialEq, Eq, Structural)]
pub enum BusError {
    /// The stack pointer would wrap around the address space.
    Overflow,
}

/// Why an instruction could not be executed.
#[derive(Debug, Clone, Copy, PartialEq, Eq, Structural)]
pub enum OpcodeError {
    Bus(BusError),
    /// The byte is not an instruction of the SM83.
    Illegal,
    /// STOP ran without a prepared speed switch.
    Stop,
}

/// Why a CPU cycle failed, with the address of the instruction or interrupt handler.
#[derive(Debug, Clone, Copy, PartialEq, Eq, Structural)]
pub enum CycleError {
    Bus(Address, BusError),
    Opcode(Address, Opcode, OpcodeError),
}

/// What the CPU did in one cycle.
#[derive(Debug, Clone, Copy, PartialEq, Eq, Structural)]
pub enum ExecutionType {
    /// Called the interrupt handler at the address.
    Interrupt(Address),
    /// Waited in HALT.
    Halt,
    /// Waited in STOP.
    Stop,
    /// Executed the instruction at the address.
    Opcode(Address),
}

/// What the CPU did in one cycle and how many T-cycles it took.
#[derive(Debug, Clone, Copy, PartialEq, Eq, Structural)]
pub struct CycleExecution {
    pub execution: ExecutionType,
    pub cycles: Cycles,
}

/// The SM83 core.
pub struct CPU {
    pub registers: Registers,
}

/// Whether `r` and the state after (`post_regs`, `post`, `post_cart`) are what one CPU cycle
/// makes of `regs`, `bus` and `cart`: an interrupt is served, HALT or STOP waits, or the
/// instruction at PC is executed.
pub open spec fn cycled<C: Cartridge>(
    regs: Registers,
    bus: Bus,
    cart: C,
    r: Result<CycleExecution, CycleError>,
    post_regs: Registers,
    post: Bus,
    post_cart: C,
) -> bool {
    let (ints, state) = bus.interrupts.interrupt_spec();
    let b1 = Bus { interrupts: ints, ..bus };
    match state {
        InterruptState::Interrupt(address) => {
            let o = call(regs, address.0, 20);
            &&& performed(b1, cart, o, post_regs, post, post_cart)
            &&& r == match o.result {
                Ok(c) => Ok(CycleExecution { execution: ExecutionType::Interrupt(address), cycles: c }),
                Err(_) => Err(CycleError::Bus(address, BusError::Overflow)),
            }
        },
        InterruptState::Halt => {
            &&& post_regs == regs && post == b1 && post_cart == cart
            &&& r == Ok::<CycleExecution, CycleError>(
                CycleExecution { execution: ExecutionType::Halt, cycles: Cycles(4) },
            )
        },
        InterruptState::Stop => {
            &&& post_regs == regs && post == b1 && post_cart == cart
            &&& r == Ok::<CycleExecution, CycleError>(
                CycleExecution { execution: ExecutionType::Stop, cycles: Cycles(4) },
            )
        },
        InterruptState::Continue => {
            let opcode = rd(b1, cart, regs.pc as int);
            let o = outcome(next_pc(regs, 1), b1, cart, opcode);
            &&& performed(b1, cart, o, post_regs, post, post_cart)
            &&& r == match o.result {
                Ok(c) => Ok(
                    CycleExecution { execution: ExecutionType::Opcode(Address(regs.pc)), cycles: c },
                ),
                Err(e) => Err(CycleError::Opcode(Address(regs.pc), Opcode(opcode), e)),
            }
        },
    }
}

/// A CPU cycle takes between 2 and 24 T-cycles.
pub proof fn lemma_cycle_cycles<C: Cartridge>(
    regs: Registers,
    bus: Bus,
    cart: C,
    r: Result<CycleExecution, CycleError>,
    post_regs: Registers,
    post: Bus,
    post_cart: C,
)
    requires
        cycled(regs, bus, cart, r, post_regs, post, post_cart),
    ensures
        r matches Ok(e) ==> 2 <= e.cycles.0 <= 24,
{
    let (ints, state) = bus.interrupts.interrupt_spec();
    let b1 = Bus { interrupts: ints, ..bus };
    lemma_outcome_cycles(next_pc(regs, 1), b1, cart, rd(b1, cart, regs.pc as int));
}

impl CPU {
    pub fn new() -> (r: Self)
        ensures
            r.registers == Registers::default_spec(),
    {
        Self { registers: Registers::default() }
    }

    /// Runs one CPU cycle: serves a pending interrupt, waits in HALT or STOP, or executes the
    /// instruction at PC.
    pub fn cycle<C: Cartridge>(&mut self, cart: &mut C, bus: &mut Bus) -> (r: Result<
        CycleExecution,
        CycleError,
    >)
        requires
            old(bus).wf(),
        ensures
            final(bus).wf(),
            cycled(
                old(self).registers,
                *old(bus),
                *old(cart),
                r,
                final(self).registers,
                *final(bus),
                *final(cart),
            ),
    {
        match bus.interrupts.interrupt() {
            InterruptState::Interrupt(address) => match self.op_call(cart, bus, address) {
                Ok(()) => Ok(
                    CycleExecution { execution: ExecutionType::Interrupt(address), cycles: Cycles(20) },
                ),
                Err(err) => Err(CycleError::Bus(address, err)),
            },
            InterruptState::Halt => Ok(
                CycleExecution { execution: ExecutionType::Halt, cycles: Cycles(4) },
            ),
            InterruptState::Stop => Ok(
                CycleExecution { execution: ExecutionType::Stop, cycles: Cycles(4) },
            ),
            InterruptState::Continue => {
                let address = Address::new(self.registers.pc);
                let opcode = Opcode(self.read_next(cart, bus));
                match self.execute(cart, bus, opcode) {
                    Ok(cycles) => Ok(
                        CycleExecution { execution: ExecutionType::Opcode(address), cycles },
                    ),
                    Err(e) => Err(CycleError::Opcode(address, opcode, e)),
                }
            },
        }
    }

    /// Executes the instruction `opcode`, whose byte has been read (PC is past it).
    fn execute<C: Cartridge>(&mut self, cart: &mut C, bus: &mut Bus, opcode: Opcode) -> (r: Result<
        Cycles,
        OpcodeError,
    >)
        requires
            old(bus).wf(),
        ensures
            final(bus).wf(),
            ({
                let o = outcome(old(self).registers, *old(bus), *old(cart), opcode.0);
                &&& performed(*old(bus), *old(cart), o, final(self).registers, *final(bus), *final(cart))
                &&& r == o.result
            }),
    {
        let x = opcode.0 / 64;
        let y = (opcode.0 / 8) % 8;
        let z = opcode.0 % 8;
        if x == 0 {
            self.execute_block0(cart, bus, y, z)
        } else if x == 1 {
            self.execute_block1(cart, bus, y, z)
        } else if x == 2 {
            let value = self.registers.read_index(cart, bus, z);
            self.ops_a_math(y, value);
            Ok(Cycles(if z == 6 { 2 } else { 4 }))
        } else {
            self.execute_block3(cart, bus, y, z)
        }
    }

    #[verifier::rlimit(60)]
    fn execute_block0<C: Cartridge>(&mut self, cart: &mut C, bus: &mut Bus, y: u8, z: u8) -> (r:
        Result<Cycles, OpcodeError>)
        requires
            old(bus).wf(),
            y < 8,
            z < 8,
        ensures
            final(bus).wf(),
            ({
                let o = block0(old(self).registers, *old(bus), *old(cart), y, z);
                &&& performed(*old(bus), *old(cart), o, final(self).registers, *final(bus), *final(cart))
                &&& r == o.result
            }),
    {
        match z {
            0 => self.exec_control(cart, bus, y, z),
            1 => self.exec_load16(cart, bus, y, z),
            2 => self.exec_indirect(cart, bus, y, z),
            3 => self.exec_step16(cart, bus, y, z),
            4 => Ok(self.op_inc(cart, bus, y)),
            5 => Ok(self.op_dec(cart, bus, y)),
            6 => self.exec_load8(cart, bus, y, z),
            _ => self.exec_accumulator(cart, bus, y, z),
        }
    }

    fn exec_step16<C: Cartridge>(&mut self, cart: &mut C, bus: &mut Bus, y: u8, z: u8) -> (r:
        Result<Cycles, OpcodeError>)
        requires
            old(bus).wf(),
            y < 8,
            z == 3,
        ensures
            final(bus).wf(),
            ({
                let o = step16(old(self).registers, y);
                &&& performed(*old(bus), *old(cart), o, final(self).registers, *final(bus), *final(cart))
                &&& r == o.result
            }),
    {
        reveal(step16);
        let p = y / 2;
        let q = y % 2 == 1;
        let r = DReg::pair1(p);
        let v = self.registers.get16(r);
        self.registers.set16(
            r,
            if !q {
                v.wrapping_add(1)
            } else {
                v.wrapping_sub(1)
            },
        );
        Ok(Cycles(8))
    }

    fn exec_load8<C: Cartridge>(&mut self, cart: &mut C, bus: &mut Bus, y: u8, z: u8) -> (r:
        Result<Cycles, OpcodeError>)
        requires
            old(bus).wf(),
            y < 8,
            z == 6,
        ensures
            final(bus).wf(),
            ({
                let o = load8(old(self).registers, *old(bus), *old(cart), y);
                &&& performed(*old(bus), *old(cart), o, final(self).registers, *final(bus), *final(cart))
                &&& r == o.result
            }),
    {
        reveal(load8);
        let value = self.read_next(cart, bus);
        self.registers.write_index(cart, bus, y, value);
        Ok(Cycles(if y == 6 { 12 } else { 8 }))
    }

    #[verifier::spinoff_prover]
    #[verifier::rlimit(60)]
    fn exec_accumulator<C: Cartridge>(&mut self, cart: &mut C, bus: &mut Bus, y: u8, z: u8) -> (r:
        Result<Cycles, OpcodeError>)
        requires
            old(bus).wf(),
            y < 8,
            z == 7,
        ensures
            final(bus).wf(),
            ({
                let o = accumulator(old(self).registers, y);
                &&& performed(*old(bus), *old(cart), o, final(self).registers, *final(bus), *final(cart))
                &&& r == o.result
            }),
    {
        reveal(accumulator);
        let a = self.registers.get(Reg::A);
        if y == 0 {
            let v = self.op_rlc::<false>(a);
            self.registers.set(Reg::A, v);
        } else if y == 1 {
            let v = self.op_rrc::<false>(a);
            self.registers.set(Reg::A, v);
        } else if y == 2 {
            let v = self.op_rl::<false>(a);
            self.registers.set(Reg::A, v);
        } else if y == 3 {
            let v = self.op_rr::<false>(a);
            self.registers.set(Reg::A, v);
        } else if y == 4 {
            self.op_daa();
        } else if y == 5 {
            // CPL
            self.registers.set(Reg::A, !a);
            self.registers.set_flag(FLAG_HALF_CARRY, true);
            self.registers.set_flag(FLAG_NEGATIVE, true);
            proof {
                let f0 = old(self).registers.f();
                lemma_make_f(self.registers.f(), flag_z(f0), true, true, flag_c(f0), f0);
            }
        } else if y == 6 {
            // SCF
            self.registers.set_flag(FLAG_CARRY, true);
            self.registers.set_flag(FLAG_HALF_CARRY, false);
            self.registers.set_flag(FLAG_NEGATIVE, false);
            proof {
                let f0 = old(self).registers.f();
                lemma_make_f(self.registers.f(), flag_z(f0), false, false, true, f0);
            }
        } else {
            // CCF
            let c = self.registers.flag(FLAG_CARRY);
            self.registers.set_flag(FLAG_CARRY, !c);
            self.registers.set_flag(FLAG_HALF_CARRY, false);
            self.registers.set_flag(FLAG_NEGATIVE, false);
            proof {
                let f0 = old(self).registers.f();
                lemma_make_f(self.registers.f(), flag_z(f0), false, false, !flag_c(f0), f0);
            }
        }
        Ok(Cycles(4))
    }

    fn exec_control<C: Cartridge>(&mut self, cart: &mut C, bus: &mut Bus, y: u8, z: u8) -> (r:
        Result<Cycles, OpcodeError>)
        requires
            old(bus).wf(),
            y < 8,
            z == 0,
        ensures
            final(bus).wf(),
            ({
                let o = control(old(self).registers, *old(bus), *old(cart), y);
                &&& performed(*old(bus), *old(cart), o, final(self).registers, *final(bus), *final(cart))
                &&& r == o.result
            }),
    {
        reveal(control);
        if y == 0 {
            Ok(Cycles(4))
        } else if y == 1 {
            let address = Address::new(self.read_next_u16(cart, bus));
            bus.write_word(cart, address, self.registers.sp);
            Ok(Cycles(20))
        } else if y == 2 {
            if !bus.cgb.disarm() {
                return Err(OpcodeError::Stop);
            }
            Ok(Cycles(4))
        } else {
            let taken = self.op_jr_cc_d(cart, bus, y);
            Ok(Cycles(if taken { 12 } else { 8 }))
        }
    }

    fn exec_load16<C: Cartridge>(&mut self, cart: &mut C, bus: &mut Bus, y: u8, z: u8) -> (r:
        Result<Cycles, OpcodeError>)
        requires
            old(bus).wf(),
            y < 8,
            z == 1,
        ensures
            final(bus).wf(),
            ({
                let o = load16(old(self).registers, *old(bus), *old(cart), y);
                &&& performed(*old(bus), *old(cart), o, final(self).registers, *final(bus), *final(cart))
                &&& r == o.result
            }),
    {
        reveal(load16);
        let p = y / 2;
        let q = y % 2 == 1;
        if !q {
            let value = self.read_next_u16(cart, bus);
            self.registers.set16(DReg::pair1(p), value);
            Ok(Cycles(12))
        } else {
            let value = self.registers.get16(DReg::pair1(p));
            Ok(self.op_add_hl(value))
        }
    }

    #[verifier::rlimit(60)]
    fn exec_indirect<C: Cartridge>(&mut self, cart: &mut C, bus: &mut Bus, y: u8, z: u8) -> (r:
        Result<Cycles, OpcodeError>)
        requires
            old(bus).wf(),
            y < 8,
            z == 2,
        ensures
            final(bus).wf(),
            ({
                let o = indirect(old(self).registers, *old(bus), *old(cart), y);
                &&& performed(*old(bus), *old(cart), o, final(self).registers, *final(bus), *final(cart))
                &&& r == o.result
            }),
    {
        reveal(indirect);
        let p = y / 2;
        let q = y % 2 == 1;
        let ghost r0 = self.registers;
        let address = if p == 0 {
            Address::new(self.registers.bc)
        } else if p == 1 {
            Address::new(self.registers.de)
        } else if p == 2 {
            let addr = Address::new(self.registers.hl);
            self.registers.hl = self.registers.hl.wrapping_add(1);
            addr
        } else {
            let addr = Address::new(self.registers.hl);
            self.registers.hl = self.registers.hl.wrapping_sub(1);
            addr
        };
        let ghost r1 = self.registers;
        assert(address.0 == if p == 0 {
            r0.bc
        } else if p == 1 {
            r0.de
        } else {
            r0.hl
        });
        assert(r1 == if p == 2 {
            Registers { hl: wrap16(r0.hl + 1), ..r0 }
        } else if p == 3 {
            Registers { hl: wrap16(r0.hl - 1), ..r0 }
        } else {
            r0
        });
        if !q {
            let a = self.registers.get(Reg::A);
            bus.write::<false, C>(cart, address, a);
        } else {
            let v = bus.read::<false, C>(cart, address);
            assert(v == rd(*old(bus), *old(cart), address.0 as int));
            self.registers.set(Reg::A, v);
        }
        Ok(Cycles(8))
    }

    fn execute_block1<C: Cartridge>(&mut self, cart: &mut C, bus: &mut Bus, y: u8, z: u8) -> (r:
        Result<Cycles, OpcodeError>)
        requires
            old(bus).wf(),
            y < 8,
            z < 8,
        ensures
            final(bus).wf(),
            ({
                let o = block1(old(self).registers, *old(bus), *old(cart), y, z);
                &&& performed(*old(bus), *old(cart), o, final(self).registers, *final(bus), *final(cart))
                &&& r == o.result
            }),
    {
        if z == 6 && y == 6 {
            bus.interrupts.set_halt();
            Ok(Cycles(4))
        } else {
            let value = self.registers.read_index(cart, bus, z);
            self.registers.write_index(cart, bus, y, value);
            Ok(Cycles(if y == 6 || z == 6 { 8 } else { 4 }))
        }
    }

    fn execute_block3<C: Cartridge>(&mut self, cart: &mut C, bus: &mut Bus, y: u8, z: u8) -> (r:
        Result<Cycles, OpcodeError>)
        requires
            old(bus).wf(),
            y < 8,
            z < 8,
        ensures
            final(bus).wf(),
            ({
                let o = block3(old(self).registers, *old(bus), *old(cart), y, z);
                &&& performed(*old(bus), *old(cart), o, final(self).registers, *final(bus), *final(cart))
                &&& r == o.result
            }),
    {
        let p = y / 2;
        let q = y % 2 == 1;
        match z {
            0 => self.exec_control_high(cart, bus, y, z),
            1 => self.exec_stack(cart, bus, y, z),
            2 => self.exec_jump_io(cart, bus, y, z),
            3 => self.exec_misc(cart, bus, y, z),
            4 => self.exec_call_cc(cart, bus, y, z),
            5 => self.exec_call_push(cart, bus, y, z),
            6 => {
                let value = self.read_next(cart, bus);
                self.ops_a_math(y, value);
                Ok(Cycles(8))
            },
            _ => {
                match self.op_call(cart, bus, Address::new(y as Width * 8)) {
                    Ok(()) => Ok(Cycles(16)),
                    Err(e) => Err(OpcodeError::Bus(e)),
                }
            },
        }
    }

    fn exec_control_high<C: Cartridge>(&mut self, cart: &mut C, bus: &mut Bus, y: u8, z: u8) -> (r:
        Result<Cycles, OpcodeError>)
        requires
            old(bus).wf(),
            y < 8,
            z == 0,
        ensures
            final(bus).wf(),
            ({
                let o = control_high(old(self).registers, *old(bus), *old(cart), y);
                &&& performed(*old(bus), *old(cart), o, final(self).registers, *final(bus), *final(cart))
                &&& r == o.result
            }),
    {
        reveal(control_high);
        let p = y / 2;
        let q = y % 2 == 1;
        if y < 4 {
            if self.subop_cc_flag(y) {
                match self.op_ret(cart, bus) {
                    Ok(()) => Ok(Cycles(20)),
                    Err(e) => Err(OpcodeError::Bus(e)),
                }
            } else {
                Ok(Cycles(8))
            }
        } else if y == 4 || y == 6 {
            let n = self.read_next(cart, bus);
            let address = Address::new(n as Width + 0xFF00);
            if y == 6 {
                let v = bus.read::<false, C>(cart, address);
                self.registers.set(Reg::A, v);
            } else {
                let a = self.registers.get(Reg::A);
                bus.write::<false, C>(cart, address, a);
            }
            Ok(Cycles(12))
        } else if y == 5 {
            let sp = self.registers.sp;
            self.registers.sp = self.subop_add_next_signed::<C, true>(cart, bus, sp);
            Ok(Cycles(16))
        } else {
            let sp = self.registers.sp;
            self.registers.hl = self.subop_add_next_signed::<C, true>(cart, bus, sp);
            Ok(Cycles(12))
        }
    }

    fn exec_stack<C: Cartridge>(&mut self, cart: &mut C, bus: &mut Bus, y: u8, z: u8) -> (r:
        Result<Cycles, OpcodeError>)
        requires
            old(bus).wf(),
            y < 8,
            z == 1,
        ensures
            final(bus).wf(),
            ({
                let o = stack(old(self).registers, *old(bus), *old(cart), y);
                &&& performed(*old(bus), *old(cart), o, final(self).registers, *final(bus), *final(cart))
                &&& r == o.result
            }),
    {
        reveal(stack);
        let p = y / 2;
        let q = y % 2 == 1;
        if !q {
            let dreg = DReg::pair2(p);
            match self.op_pop(cart, bus) {
                Ok(v) => {
                    let value = if p == 3 {
                        (v / 16) * 16 + self.registers.af % 16
                    } else {
                        v
                    };
                    self.registers.set16(dreg, value);
                    Ok(Cycles(12))
                },
                Err(e) => Err(OpcodeError::Bus(e)),
            }
        } else if p == 0 {
            match self.op_ret(cart, bus) {
                Ok(()) => Ok(Cycles(16)),
                Err(e) => Err(OpcodeError::Bus(e)),
            }
        } else if p == 1 {
            match self.op_ret(cart, bus) {
                Ok(()) => {
                    self.op_ei(bus);
                    Ok(Cycles(16))
                },
                Err(e) => Err(OpcodeError::Bus(e)),
            }
        } else if p == 2 {
            let hl = self.registers.hl;
            self.op_jump(Address::new(hl));
            Ok(Cycles(4))
        } else {
            self.registers.sp = self.registers.hl;
            Ok(Cycles(8))
        }
    }

    #[verifier::rlimit(60)]
    fn exec_jump_io<C: Cartridge>(&mut self, cart: &mut C, bus: &mut Bus, y: u8, z: u8) -> (r:
        Result<Cycles, OpcodeError>)
        requires
            old(bus).wf(),
            y < 8,
            z == 2,
        ensures
            final(bus).wf(),
            ({
                let o = jump_io(old(self).registers, *old(bus), *old(cart), y);
                &&& performed(*old(bus), *old(cart), o, final(self).registers, *final(bus), *final(cart))
                &&& r == o.result
            }),
    {
        reveal(jump_io);
        let p = y / 2;
        let q = y % 2 == 1;
        if y < 4 {
            let cond = self.subop_cc_flag(y);
            let address = Address::new(self.read_next_u16(cart, bus));
            if cond {
                self.op_jump(address);
            }
            Ok(Cycles(if cond { 16 } else { 12 }))
        } else if y == 4 || y == 6 {
            let address = Address::new(self.registers.get(Reg::C) as Width + 0xFF00);
            if y == 6 {
                let v = bus.read::<false, C>(cart, address);
                self.registers.set(Reg::A, v);
            } else {
                let a = self.registers.get(Reg::A);
                bus.write::<false, C>(cart, address, a);
            }
            Ok(Cycles(8))
        } else {
            let address = Address::new(self.read_next_u16(cart, bus));
            if y == 7 {
                let v = bus.read::<false, C>(cart, address);
                self.registers.set(Reg::A, v);
            } else {
                let a = self.registers.get(Reg::A);
                bus.write::<false, C>(cart, address, a);
            }
            Ok(Cycles(16))
        }
    }

    fn exec_misc<C: Cartridge>(&mut self, cart: &mut C, bus: &mut Bus, y: u8, z: u8) -> (r:
        Result<Cycles, OpcodeError>)
        requires
            old(bus).wf(),
            y < 8,
            z == 3,
        ensures
            final(bus).wf(),
            ({
                let o = misc(old(self).registers, *old(bus), *old(cart), y);
                &&& performed(*old(bus), *old(cart), o, final(self).registers, *final(bus), *final(cart))
                &&& r == o.result
            }),
    {
        reveal(misc);
        let p = y / 2;
        let q = y % 2 == 1;
        if y == 0 {
            let address = Address::new(self.read_next_u16(cart, bus));
            self.op_jump(address);
            Ok(Cycles(16))
        } else if y == 1 {
            match self.op_cb(cart, bus) {
                Ok(cycles) => Ok(cycles),
                Err(e) => Err(OpcodeError::Bus(e)),
            }
        } else if y == 6 {
            self.op_di(bus);
            Ok(Cycles(4))
        } else if y == 7 {
            self.op_ei(bus);
            Ok(Cycles(4))
        } else {
            Err(OpcodeError::Illegal)
        }
    }

    fn exec_call_cc<C: Cartridge>(&mut self, cart: &mut C, bus: &mut Bus, y: u8, z: u8) -> (r:
        Result<Cycles, OpcodeError>)
        requires
            old(bus).wf(),
            y < 8,
            z == 4,
        ensures
            final(bus).wf(),
            ({
                let o = call_cc(old(self).registers, *old(bus), *old(cart), y);
                &&& performed(*old(bus), *old(cart), o, final(self).registers, *final(bus), *final(cart))
                &&& r == o.result
            }),
    {
        reveal(call_cc);
        let p = y / 2;
        let q = y % 2 == 1;
        if y < 4 {
            let address = Address::new(self.read_next_u16(cart, bus));
            let cond = self.subop_cc_flag(y);
            if cond {
                match self.op_call(cart, bus, address) {
                    Ok(()) => Ok(Cycles(24)),
                    Err(e) => Err(OpcodeError::Bus(e)),
                }
            } else {
                Ok(Cycles(12))
            }
        } else {
            Err(OpcodeError::Illegal)
        }
    }

    fn exec_call_push<C: Cartridge>(&mut self, cart: &mut C, bus: &mut Bus, y: u8, z: u8) -> (r:
        Result<Cycles, OpcodeError>)
        requires
            old(bus).wf(),
            y < 8,
            z == 5,
        ensures
            final(bus).wf(),
            ({
                let o = call_push(old(self).registers, *old(bus), *old(cart), y);
                &&& performed(*old(bus), *old(cart), o, final(self).registers, *final(bus), *final(cart))
                &&& r == o.result
            }),
    {
        reveal(call_push);
        let p = y / 2;
        let q = y % 2 == 1;
        if q {
            if p == 0 {
                let address = Address::new(self.read_next_u16(cart, bus));
                match self.op_call(cart, bus, address) {
                    Ok(()) => Ok(Cycles(24)),
                    Err(e) => Err(OpcodeError::Bus(e)),
                }
            } else {
                Err(OpcodeError::Illegal)
            }
        } else {
            let value = self.registers.get16(DReg::pair2(p));
            match self.op_push(cart, bus, value) {
                Ok(()) => Ok(Cycles(16)),
                Err(e) => Err(OpcodeError::Bus(e)),
            }
        }
    }

    fn op_jump(&mut self, address: Address)
        ensures
            final(self).registers == (Registers { pc: address.0, ..old(self).registers }),
    {
        self.registers.pc = address.value();
    }

    /// Pushes `value`: SP moves down two bytes and the word is written there.
    fn op_push<C: Cartridge>(&mut self, cart: &mut C, bus: &mut Bus, value: u16) -> (r: Result<
        (),
        BusError,
    >)
        requires
            old(bus).wf(),
        ensures
            final(bus).wf(),
            performed(
                *old(bus),
                *old(cart),
                push(old(self).registers, value, 0),
                final(self).registers,
                *final(bus),
                *final(cart),
            ),
            r is Ok <==> old(self).registers.sp >= 2,
            r is Err ==> r == Err::<(), BusError>(BusError::Overflow),
    {
        match self.registers.sp.checked_sub(2) {
            Some(sp) => {
                self.registers.sp = sp;
                bus.write_word(cart, Address::new(sp), value);
                Ok(())
            },
            None => Err(BusError::Overflow),
        }
    }

    /// Pops a word: read at SP, then SP moves up two bytes.
    fn op_pop<C: Cartridge>(&mut self, cart: &C, bus: &Bus) -> (r: Result<u16, BusError>)
        requires
            bus.wf(),
        ensures
            old(self).registers.sp > 0xFFFD ==> r == Err::<u16, BusError>(BusError::Overflow)
                && final(self).registers == old(self).registers,
            old(self).registers.sp <= 0xFFFD ==> r == Ok::<u16, BusError>(
                rd16(*bus, *cart, old(self).registers.sp as int),
            ) && final(self).registers == (Registers {
                sp: (old(self).registers.sp + 2) as u16,
                ..old(self).registers
            }),
    {
        let value = bus.read_word::<false, C>(cart, Address::new(self.registers.sp));
        match self.registers.sp.checked_add(2) {
            Some(sp) => {
                self.registers.sp = sp;
                Ok(value)
            },
            None => Err(BusError::Overflow),
        }
    }

    /// Calls `address`: PC is pushed, then jumped over.
    fn op_call<C: Cartridge>(&mut self, cart: &mut C, bus: &mut Bus, address: Address) -> (r:
        Result<(), BusError>)
        requires
            old(bus).wf(),
        ensures
            final(bus).wf(),
            performed(
                *old(bus),
                *old(cart),
                call(old(self).registers, address.0, 0),
                final(self).registers,
                *final(bus),
                *final(cart),
            ),
            r is Ok <==> old(self).registers.sp >= 2,
            r is Err ==> r == Err::<(), BusError>(BusError::Overflow),
    {
        let pc = self.registers.pc;
        match self.op_push(cart, bus, pc) {
            Ok(()) => {
                self.op_jump(address);
                Ok(())
            },
            Err(e) => Err(e),
        }
    }

    /// Returns: PC is popped.
    fn op_ret<C: Cartridge>(&mut self, cart: &C, bus: &Bus) -> (r: Result<(), BusError>)
        requires
            bus.wf(),
        ensures
            ({
                let o = ret(old(self).registers, *bus, *cart, 0, Signal::Nothing);
                &&& final(self).registers == o.regs
                &&& r is Ok <==> old(self).registers.sp <= 0xFFFD
                &&& r is Err ==> r == Err::<(), BusError>(BusError::Overflow)
            }),
    {
        match self.op_pop(cart, bus) {
            Ok(address) => {
                self.op_jump(Address::new(address));
                Ok(())
            },
            Err(e) => Err(e),
        }
    }

    fn op_di(&mut self, bus: &mut Bus)
        ensures
            *final(bus) == semantics::signalled(*old(bus), Signal::Ime(false)),
            final(self).registers == old(self).registers,
    {
        bus.interrupts.set_ime(false);
    }

    fn op_ei(&mut self, bus: &mut Bus)
        ensures
            *final(bus) == semantics::signalled(*old(bus), Signal::Ime(true)),
            final(self).registers == old(self).registers,
    {
        bus.interrupts.set_ime(true);
    }

    /// Reads a signed displacement at PC and adds it to `value`; with `FLAGS`, sets the flags
    /// of ADD SP,e.
    fn subop_add_next_signed<C: Cartridge, const FLAGS: bool>(
        &mut self,
        cart: &C,
        bus: &Bus,
        value: u16,
    ) -> (r: u16)
        requires
            bus.wf(),
        ensures
            ({
                let e = rd(*bus, *cart, old(self).registers.pc as int);
                let r1 = next_pc(old(self).registers, 1);
                &&& r == add_signed(value, e, r1.f()).0
                &&& final(self).registers == if FLAGS {
                    r1.with_af(r1.a(), add_signed(value, e, r1.f()).1)
                } else {
                    r1
                }
            }),
    {
        let e = self.read_next(cart, bus);
        let diff: u16 = if e < 128 {
            e as u16
        } else {
            e as u16 + 0xFF00
        };
        let result = value.wrapping_add(diff);
        if FLAGS {
            let carry = value % 256 + e as u16 > 255;
            let half = Self::half_carry_add_u8((value % 256) as u8, e);
            self.registers.set_flag(FLAG_ZERO, false);
            self.registers.set_flag(FLAG_NEGATIVE, false);
            self.registers.set_flag(FLAG_CARRY, carry);
            self.registers.set_flag(FLAG_HALF_CARRY, half);
            proof {
                let f0 = next_pc(old(self).registers, 1).f();
                lemma_make_f(self.registers.f(), false, false, half, carry, f0);
            }
        }
        result
    }

    /// Whether the condition NZ, Z, NC or C (`y` 0 to 3) holds.
    fn subop_cc_flag(&self, y: u8) -> (r: bool)
        requires
            y < 4,
        ensures
            r == cc(self.registers.f(), y),
    {
        if y == 0 {
            !self.registers.flag(FLAG_ZERO)
        } else if y == 1 {
            self.registers.flag(FLAG_ZERO)
        } else if y == 2 {
            !self.registers.flag(FLAG_CARRY)
        } else {
            self.registers.flag(FLAG_CARRY)
        }
    }

    /// JR and JR cc (`y` 3 to 7): reads the displacement and jumps when the condition holds;
    /// returns whether it jumped.
    fn op_jr_cc_d<C: Cartridge>(&mut self, cart: &C, bus: &Bus, y: u8) -> (r: bool)
        requires
            bus.wf(),
            3 <= y < 8,
        ensures
            ({
                let regs = old(self).registers;
                let e = rd(*bus, *cart, regs.pc as int);
                &&& r == (y == 3 || cc(regs.f(), (y - 4) as u8))
                &&& final(self).registers == if r {
                    Registers { pc: wrap16(regs.pc + 1 + sext(e)), ..next_pc(regs, 1) }
                } else {
                    next_pc(regs, 1)
                }
            }),
    {
        let start = self.registers.pc.wrapping_add(1);
        let jump = self.subop_add_next_signed::<C, false>(cart, bus, start);
        let cond = y == 3 || self.subop_cc_flag(y - 4);
        if cond {
            self.registers.pc = jump;
        }
        cond
    }

    /// ADD HL,rr.
    fn op_add_hl(&mut self, value: u16) -> (r: Cycles)
        ensures
            final(self).registers == add_hl(old(self).registers, value),
            r == Cycles(8),
    {
        let hl = self.registers.hl;
        let sum: u32 = hl as u32 + value as u32;
        let result = (sum % 0x10000) as u16;
        let carry = sum > 0xFFFF;
        let half = Self::half_carry_add_u16(hl, value);
        let z = self.registers.flag(FLAG_ZERO);
        self.registers.set_flag(FLAG_NEGATIVE, false);
        self.registers.set_flag(FLAG_CARRY, carry);
        self.registers.set_flag(FLAG_HALF_CARRY, half);
        proof {
            let f0 = old(self).registers.f();
            lemma_make_f(self.registers.f(), flag_z(f0), false, half, carry, f0);
        }
        self.registers.hl = result;
        Cycles(8)
    }

    /// INC of an 8-bit operand field.
    fn op_inc<C: Cartridge>(&mut self, cart: &mut C, bus: &mut Bus, index: u8) -> (r: Cycles)
        requires
            old(bus).wf(),
            index < 8,
        ensures
            final(bus).wf(),
            ({
                let o = inc_dec(old(self).registers, *old(bus), *old(cart), index, false);
                &&& performed(*old(bus), *old(cart), o, final(self).registers, *final(bus), *final(cart))
                &&& Ok::<Cycles, crate::cpu::OpcodeError>(r) == o.result
            }),
    {
        let operand = self.registers.read_index(cart, bus, index);
        let value = operand.wrapping_add(1);
        let carry = operand == 255;
        let half = Self::half_carry_add_u8(operand, 1);
        self.registers.set_flag(FLAG_NEGATIVE, false);
        self.registers.set_flag(FLAG_ZERO, carry);
        self.registers.set_flag(FLAG_HALF_CARRY, half);
        proof {
            let f0 = old(self).registers.f();
            lemma_make_f(self.registers.f(), carry, false, half, flag_c(f0), f0);
        }
        self.registers.write_index(cart, bus, index, value);
        Cycles(if index == 6 { 12 } else { 4 })
    }

    /// DEC of an 8-bit operand field.
    fn op_dec<C: Cartridge>(&mut self, cart: &mut C, bus: &mut Bus, index: u8) -> (r: Cycles)
        requires
            old(bus).wf(),
            index < 8,
        ensures
            final(bus).wf(),
            ({
                let o = inc_dec(old(self).registers, *old(bus), *old(cart), index, true);
                &&& performed(*old(bus), *old(cart), o, final(self).registers, *final(bus), *final(cart))
                &&& Ok::<Cycles, crate::cpu::OpcodeError>(r) == o.result
            }),
    {
        let operand = self.registers.read_index(cart, bus, index);
        let zero = operand == 1;
        let half = Self::half_carry_sub_u8(operand, 1);
        self.registers.set_flag(FLAG_NEGATIVE, true);
        self.registers.set_flag(FLAG_ZERO, zero);
        self.registers.set_flag(FLAG_HALF_CARRY, half);
        proof {
            let f0 = old(self).registers.f();
            lemma_make_f(self.registers.f(), zero, true, half, flag_c(f0), f0);
        }
        self.registers.write_index(cart, bus, index, operand.wrapping_sub(1));
        Cycles(if index == 6 { 12 } else { 4 })
    }

    /// The accumulator operation `op` (ADD ADC SUB SBC AND XOR OR CP) with `value`.
    fn ops_a_math(&mut self, op: u8, value: u8)
        requires
            op < 8,
        ensures
            final(self).registers == alu(op, old(self).registers, value),
    {
        if op == 0 {
            self.op_add(value);
        } else if op == 1 {
            self.op_adc(value);
        } else if op == 2 {
            self.op_sub(value);
        } else if op == 3 {
            self.op_sbc(value);
        } else if op == 4 {
            self.op_and(value);
        } else if op == 5 {
            self.op_xor(value);
        } else if op == 6 {
            self.op_or(value);
        } else {
            let a = self.registers.get(Reg::A);
            self.op_cp(a, value);
        }
    }

    fn op_add(&mut self, value: u8)
        ensures
            final(self).registers == add8(old(self).registers, value, false),
    {
        let a = self.registers.get(Reg::A);
        let result = self.subop_add_flag(a, value);
        self.registers.set(Reg::A, result);
    }

    /// Sets the flags of `a + b` and returns the 8-bit sum.
    fn subop_add_flag(&mut self, a: u8, b: u8) -> (r: u8)
        ensures
            r == wrap8(a + b),
            final(self).registers == old(self).registers.with_af(
                old(self).registers.a(),
                make_f(r == 0, false, a % 16 + b % 16 > 15, a + b > 255, old(self).registers.f()),
            ),
    {
        let sum: u16 = a as u16 + b as u16;
        let result = (sum % 256) as u8;
        let overflow = sum > 255;
        let half = Self::half_carry_add_u8(a, b);
        self.registers.set_flag(FLAG_ZERO, result == 0);
        self.registers.set_flag(FLAG_NEGATIVE, false);
        self.registers.set_flag(FLAG_CARRY, overflow);
        self.registers.set_flag(FLAG_HALF_CARRY, half);
        proof {
            let f0 = old(self).registers.f();
            lemma_make_f(self.registers.f(), result == 0, false, half, overflow, f0);
        }
        result
    }

    #[verifier::rlimit(60)]
    fn op_adc(&mut self, b: u8)
        ensures
            final(self).registers == add8(old(self).registers, b, true),
    {
        let c: u8 = if self.registers.flag(FLAG_CARRY) { 1 } else { 0 };
        let a = self.registers.get(Reg::A);
        let sum: u16 = a as u16 + b as u16 + c as u16;
        let result = (sum % 256) as u8;
        let half_carry = a % 16 + b % 16 + c > 15;
        let carry = sum > 0xFF;
        self.registers.set_flag(FLAG_ZERO, result == 0);
        self.registers.set_flag(FLAG_NEGATIVE, false);
        self.registers.set_flag(FLAG_CARRY, carry);
        self.registers.set_flag(FLAG_HALF_CARRY, half_carry);
        proof {
            let f0 = old(self).registers.f();
            lemma_make_f(self.registers.f(), result == 0, false, half_carry, carry, f0);
        }
        self.registers.set(Reg::A, result);
    }

    fn op_sub(&mut self, value: u8)
        ensures
            final(self).registers == sub8(old(self).registers, value, false),
    {
        let a = self.registers.get(Reg::A);
        self.op_cp(a, value);
        self.registers.set(Reg::A, a.wrapping_sub(value));
    }

    #[verifier::rlimit(60)]
    fn op_sbc(&mut self, b: u8)
        ensures
            final(self).registers == sub8(old(self).registers, b, true),
    {
        let c: u8 = if self.registers.flag(FLAG_CARRY) { 1 } else { 0 };
        let a = self.registers.get(Reg::A);
        let result = a.wrapping_sub(b).wrapping_sub(c);
        let half_carry = a % 16 < b % 16 + c;
        let carry = (a as u16) < b as u16 + c as u16;
        self.registers.set_flag(FLAG_ZERO, result == 0);
        self.registers.set_flag(FLAG_NEGATIVE, true);
        self.registers.set_flag(FLAG_CARRY, carry);
        self.registers.set_flag(FLAG_HALF_CARRY, half_carry);
        proof {
            let f0 = old(self).registers.f();
            lemma_make_f(self.registers.f(), result == 0, true, half_carry, carry, f0);
        }
        self.registers.set(Reg::A, result);
    }

    fn op_and(&mut self, value: u8)
        ensures
            final(self).registers == alu(4, old(self).registers, value),
    {
        let result = self.registers.get(Reg::A) & value;
        self.registers.set(Reg::A, result);
        self.registers.set_flag(FLAG_ZERO, result == 0);
        self.registers.set_flag(FLAG_HALF_CARRY, true);
        self.registers.set_flag(FLAG_NEGATIVE, false);
        self.registers.set_flag(FLAG_CARRY, false);
        proof {
            let f0 = old(self).registers.f();
            lemma_make_f(self.registers.f(), result == 0, false, true, false, f0);
        }
    }

    fn op_xor(&mut self, value: u8)
        ensures
            final(self).registers == alu(5, old(self).registers, value),
    {
        let result = self.registers.get(Reg::A) ^ value;
        self.registers.set(Reg::A, result);
        self.registers.set_flag(FLAG_ZERO, result == 0);
        self.registers.set_flag(FLAG_NEGATIVE, false);
        self.registers.set_flag(FLAG_CARRY, false);
        self.registers.set_flag(FLAG_HALF_CARRY, false);
        proof {
            let f0 = old(self).registers.f();
            lemma_make_f(self.registers.f(), result == 0, false, false, false, f0);
        }
    }

    fn op_or(&mut self, value: u8)
        ensures
            final(self).registers == alu(6, old(self).registers, value),
    {
        let result = self.registers.get(Reg::A) | value;
        self.registers.set(Reg::A, result);
        self.registers.set_flag(FLAG_ZERO, result == 0);
        self.registers.set_flag(FLAG_NEGATIVE, false);
        self.registers.set_flag(FLAG_CARRY, false);
        self.registers.set_flag(FLAG_HALF_CARRY, false);
        proof {
            let f0 = old(self).registers.f();
            lemma_make_f(self.registers.f(), result == 0, false, false, false, f0);
        }
    }

    /// Sets the flags of `a - b` and returns the 8-bit difference.
    fn op_cp(&mut self, a: u8, b: u8) -> (r: u8)
        requires
            a == old(self).registers.a(),
        ensures
            r == wrap8(a - b),
            final(self).registers == old(self).registers.with_af(
                a,
                sub8_flags(old(self).registers, b, false),
            ),
    {
        let result = a.wrapping_sub(b);
        let overflow = a < b;
        let half = Self::half_carry_sub_u8(a, b);
        self.registers.set_flag(FLAG_ZERO, result == 0);
        self.registers.set_flag(FLAG_NEGATIVE, true);
        self.registers.set_flag(FLAG_CARRY, overflow);
        self.registers.set_flag(FLAG_HALF_CARRY, half);
        proof {
            let f0 = old(self).registers.f();
            lemma_make_f(self.registers.f(), result == 0, true, half, overflow, f0);
        }
        result
    }

    /// Sets the flags of a rotate or shift and returns its result.
    fn subop_shift_flags(&mut self, kind: u8, value: u8, result: u8, zero: bool) -> (r: u8)
        requires
            kind < 8,
            result == shift_result(kind, value, flag_c(old(self).registers.f())),
        ensures
            r == result,
            final(self).registers == old(self).registers.with_af(
                old(self).registers.a(),
                shift_flags(old(self).registers.f(), kind, value, zero),
            ),
    {
        let carry = if kind == 0 || kind == 2 || kind == 4 {
            value >= 128
        } else if kind == 6 {
            false
        } else {
            value % 2 == 1
        };
        self.registers.set_flag(FLAG_HALF_CARRY, false);
        self.registers.set_flag(FLAG_NEGATIVE, false);
        self.registers.set_flag(FLAG_CARRY, carry);
        self.registers.set_flag(FLAG_ZERO, zero && result == 0);
        proof {
            let f0 = old(self).registers.f();
            lemma_make_f(self.registers.f(), zero && result == 0, false, false, carry, f0);
        }
        result
    }

    fn op_rl<const ZERO: bool>(&mut self, value: u8) -> (r: u8)
        ensures
            r == shift_result(2, value, flag_c(old(self).registers.f())),
            final(self).registers == old(self).registers.with_af(
                old(self).registers.a(),
                shift_flags(old(self).registers.f(), 2, value, ZERO),
            ),
    {
        let old_flag: u16 = if self.registers.flag(FLAG_CARRY) { 1 } else { 0 };
        let result = ((value as u16 * 2 + old_flag) % 256) as u8;
        self.subop_shift_flags(2, value, result, ZERO)
    }

    fn op_rr<const ZERO: bool>(&mut self, value: u8) -> (r: u8)
        ensures
            r == shift_result(3, value, flag_c(old(self).registers.f())),
            final(self).registers == old(self).registers.with_af(
                old(self).registers.a(),
                shift_flags(old(self).registers.f(), 3, value, ZERO),
            ),
    {
        let old_flag: u8 = if self.registers.flag(FLAG_CARRY) { 128 } else { 0 };
        let result = value / 2 + old_flag;
        self.subop_shift_flags(3, value, result, ZERO)
    }

    fn op_rlc<const ZERO: bool>(&mut self, value: u8) -> (r: u8)
        ensures
            r == shift_result(0, value, flag_c(old(self).registers.f())),
            final(self).registers == old(self).registers.with_af(
                old(self).registers.a(),
                shift_flags(old(self).registers.f(), 0, value, ZERO),
            ),
    {
        let result = ((value as u16 * 2 + value as u16 / 128) % 256) as u8;
        self.subop_shift_flags(0, value, result, ZERO)
    }

    fn op_rrc<const ZERO: bool>(&mut self, value: u8) -> (r: u8)
        ensures
            r == shift_result(1, value, flag_c(old(self).registers.f())),
            final(self).registers == old(self).registers.with_af(
                old(self).registers.a(),
                shift_flags(old(self).registers.f(), 1, value, ZERO),
            ),
    {
        let result = value / 2 + (value % 2) * 128;
        self.subop_shift_flags(1, value, result, ZERO)
    }

    fn op_sla(&mut self, value: u8) -> (r: u8)
        ensures
            r == shift_result(4, value, flag_c(old(self).registers.f())),
            final(self).registers == old(self).registers.with_af(
                old(self).registers.a(),
                shift_flags(old(self).registers.f(), 4, value, true),
            ),
    {
        let result = ((value as u16 * 2) % 256) as u8;
        self.subop_shift_flags(4, value, result, true)
    }

    fn op_sra(&mut self, value: u8) -> (r: u8)
        ensures
            r == shift_result(5, value, flag_c(old(self).registers.f())),
            final(self).registers == old(self).registers.with_af(
                old(self).registers.a(),
                shift_flags(old(self).registers.f(), 5, value, true),
            ),
    {
        let result = value / 2 + if value >= 128 { 128 } else { 0 };
        self.subop_shift_flags(5, value, result, true)
    }

    fn op_swap(&mut self, value: u8) -> (r: u8)
        ensures
            r == shift_result(6, value, flag_c(old(self).registers.f())),
            final(self).registers == old(self).registers.with_af(
                old(self).registers.a(),
                shift_flags(old(self).registers.f(), 6, value, true),
            ),
    {
        let result = (value % 16) * 16 + value / 16;
        self.subop_shift_flags(6, value, result, true)
    }

    fn op_srl(&mut self, value: u8) -> (r: u8)
        ensures
            r == shift_result(7, value, flag_c(old(self).registers.f())),
            final(self).registers == old(self).registers.with_af(
                old(self).registers.a(),
                shift_flags(old(self).registers.f(), 7, value, true),
            ),
    {
        let result = value / 2;
        self.subop_shift_flags(7, value, result, true)
    }

    /// BIT: Z is set when bit `by` of `value` is clear.
    fn op_bit(&mut self, value: u8, by: u8)
        requires
            by < 8,
        ensures
            final(self).registers == old(self).registers.with_af(
                old(self).registers.a(),
                make_f(
                    value & (1u8 << by) == 0,
                    false,
                    true,
                    flag_c(old(self).registers.f()),
                    old(self).registers.f(),
                ),
            ),
    {
        let result = value & (1u8 << by);
        self.registers.set_flag(FLAG_NEGATIVE, false);
        self.registers.set_flag(FLAG_HALF_CARRY, true);
        self.registers.set_flag(FLAG_ZERO, result == 0);
        proof {
            let f0 = old(self).registers.f();
            lemma_make_f(self.registers.f(), result == 0, false, true, flag_c(f0), f0);
        }
    }

    /// Executes the CB-prefixed instruction at PC (after the 0xCB byte).
    pub fn op_cb<C: Cartridge>(&mut self, cart: &mut C, bus: &mut Bus) -> (r: Result<Cycles, BusError>)
        requires
            old(bus).wf(),
        ensures
            final(bus).wf(),
            ({
                let o = cb(old(self).registers, *old(bus), *old(cart));
                &&& performed(*old(bus), *old(cart), o, final(self).registers, *final(bus), *final(cart))
                &&& o.result == match r {
                    Ok(c) => Ok::<Cycles, OpcodeError>(c),
                    Err(e) => Err(OpcodeError::Bus(e)),
                }
            }),
    {
        let code = self.read_next(cart, bus);
        let reg = code % 8;
        let bits = (code / 8) % 8;
        let mut value = self.registers.read_index(cart, bus, reg);
        let ghost r1 = self.registers;
        if code / 64 == 0 {
            value = if bits == 0 {
                self.op_rlc::<true>(value)
            } else if bits == 1 {
                self.op_rrc::<true>(value)
            } else if bits == 2 {
                self.op_rl::<true>(value)
            } else if bits == 3 {
                self.op_rr::<true>(value)
            } else if bits == 4 {
                self.op_sla(value)
            } else if bits == 5 {
                self.op_sra(value)
            } else if bits == 6 {
                self.op_swap(value)
            } else {
                self.op_srl(value)
            };
        } else if code / 64 == 1 {
            self.op_bit(value, bits);
        } else if code / 64 == 2 {
            value = value & !(1u8 << bits);
        } else {
            value = value | (1u8 << bits);
        }
        self.registers.write_index(cart, bus, reg, value);
        Ok(Cycles(if reg == 6 { 16 } else { 8 }))
    }

    /// Reads the byte at PC and moves PC past it.
    fn read_next<C: Cartridge>(&mut self, cart: &C, bus: &Bus) -> (r: u8)
        requires
            bus.wf(),
        ensures
            r == rd(*bus, *cart, old(self).registers.pc as int),
            final(self).registers == next_pc(old(self).registers, 1),
    {
        let value = bus.read::<false, C>(cart, Address::new(self.registers.pc));
        self.registers.pc = self.registers.pc.wrapping_add(1);
        value
    }

    /// Reads the word at PC and moves PC past it.
    fn read_next_u16<C: Cartridge>(&mut self, cart: &C, bus: &Bus) -> (r: u16)
        requires
            bus.wf(),
        ensures
            r == rd16(*bus, *cart, old(self).registers.pc as int),
            final(self).registers == next_pc(old(self).registers, 2),
    {
        let value = bus.read_word::<false, C>(cart, Address::new(self.registers.pc));
        self.registers.pc = self.registers.pc.wrapping_add(2);
        value
    }

    /// DAA: adjusts A to the binary-coded decimal result of the last addition or subtraction.
    #[verifier::rlimit(60)]
    fn op_daa(&mut self)
        ensures
            final(self).registers == daa(old(self).registers),
    {
        let a = self.registers.get(Reg::A);
        let carry = self.registers.flag(FLAG_CARRY);
        let half = self.registers.flag(FLAG_HALF_CARRY);
        let negative = self.registers.flag(FLAG_NEGATIVE);
        let low = half || (!negative && a % 16 > 9);
        let high = carry || (!negative && a > 0x99);
        let adjust: u8 = (if high { 0x60 } else { 0 }) + (if low { 6 } else { 0 });
        let result = if !negative {
            a.wrapping_add(adjust)
        } else {
            a.wrapping_sub(adjust)
        };
        self.registers.set_flag(FLAG_CARRY, adjust >= 0x60);
        self.registers.set_flag(FLAG_HALF_CARRY, false);
        self.registers.set_flag(FLAG_ZERO, result == 0);
        proof {
            let f0 = old(self).registers.f();
            lemma_make_f(self.registers.f(), result == 0, negative, false, high, f0);
        }
        self.registers.set(Reg::A, result);
    }

    /// Brings the registers back to their power-on state.
    pub fn reset(&mut self)
        ensures
            final(self).registers == Registers::default_spec(),
    {
        *self = CPU::new();
    }

    /// The program counter.
    pub fn pc(&self) -> (r: Address)
        ensures
            r.0 == self.registers.pc,
    {
        Address::new(self.registers.pc)
    }

    /// Whether adding the low 12 bits of `a` and `b` carries into bit 12.
    fn half_carry_add_u16(a: u16, b: u16) -> (r: bool)
        ensures
            r == (a % 4096 + b % 4096 > 4095),
    {
        a % 4096 + b % 4096 > 4095
    }

    /// Whether adding the low nibbles of `a` and `b` carries into bit 4.
    fn half_carry_add_u8(a: u8, b: u8) -> (r: bool)
        ensures
            r == (a % 16 + b % 16 > 15),
    {
        a % 16 + b % 16 > 15
    }

    /// Whether subtracting the low nibble of `b` from that of `a` borrows from bit 4.
    fn half_carry_sub_u8(a: u8, b: u8) -> (r: bool)
        ensures
            r == (a % 16 < b % 16),
    {
        a % 16 < b % 16
    }
}

} // verus!

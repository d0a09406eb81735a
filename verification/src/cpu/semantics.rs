//! What each SM83 instruction does, stated over the register file and the bus's read view.
use vstd::prelude::*;

use crate::bus::interrupts::{Ime, Interrupts, PauseState};
use crate::bus::cgb::Cgb;
use crate::bus::Bus;
use crate::cartridge::Cartridge;
use crate::cpu::registers::{flag_c, flag_h, flag_n, flag_z, make_f, DReg, Reg, Registers};
use crate::cpu::{BusError, OpcodeError};
use crate::Cycles;

verus! {

pub open spec fn wrap8(x: int) -> u8 {
    (x % 256) as u8
}

pub open spec fn wrap16(x: int) -> u16 {
    (x % 0x10000) as u16
}

/// What the CPU reads at `a` (taken modulo the address space).
pub open spec fn rd<C: Cartridge>(bus: Bus, cart: C, a: int) -> u8 {
    bus.read_spec(cart, false, wrap16(a))
}

/// The little-endian word the CPU reads at `a`.
pub open spec fn rd16<C: Cartridge>(bus: Bus, cart: C, a: int) -> u16 {
    (rd(bus, cart, a) + 256 * rd(bus, cart, a + 1)) as u16
}

/// A signed 8-bit displacement, as the 16-bit value that is added.
pub open spec fn sext(e: u8) -> int {
    if e < 128 {
        e as int
    } else {
        e - 256
    }
}

/// The memory write an instruction makes once all its reads are done.
#[derive(Debug, Clone, Copy, PartialEq, Eq, Structural)]
pub enum Store {
    Nothing,
    Byte(u16, u8),
    /// A little-endian word: low byte at the address, high byte after it.
    Word(u16, u16),
}

/// What an instruction asks of the interrupt controller or the clocks.
#[derive(Debug, Clone, Copy, PartialEq, Eq, Structural)]
pub enum Signal {
    Nothing,
    Halt,
    /// STOP with a prepared speed switch: the switch is performed.
    SpeedSwitch,
    /// EI or DI: the master enable changes after the next instruction.
    Ime(bool),
}

/// The effect of one instruction.
#[derive(Debug, Clone, Copy)]
pub struct Outcome {
    pub regs: Registers,
    pub store: Store,
    pub signal: Signal,
    pub result: Result<Cycles, OpcodeError>,
}

/// Registers changed, nothing else.
pub open spec fn ok(regs: Registers, cycles: int) -> Outcome {
    Outcome { regs, store: Store::Nothing, signal: Signal::Nothing, result: Ok(Cycles(cycles as usize)) }
}

/// The stack pointer would leave the address space.
pub open spec fn overflow(regs: Registers) -> Outcome {
    Outcome {
        regs,
        store: Store::Nothing,
        signal: Signal::Nothing,
        result: Err(OpcodeError::Bus(BusError::Overflow)),
    }
}

pub open spec fn illegal(regs: Registers) -> Outcome {
    Outcome { regs, store: Store::Nothing, signal: Signal::Nothing, result: Err(OpcodeError::Illegal) }
}

/// The registers with PC moved `n` bytes on.
pub open spec fn next_pc(r: Registers, n: int) -> Registers {
    Registers { pc: wrap16(r.pc + n), ..r }
}

/// The condition of a conditional jump, call or return: NZ, Z, NC, C.
pub open spec fn cc(f: u8, y: u8) -> bool {
    if y == 0 {
        !flag_z(f)
    } else if y == 1 {
        flag_z(f)
    } else if y == 2 {
        !flag_c(f)
    } else {
        flag_c(f)
    }
}

/// 8-bit addition into A, with the carry flag added in when `with_carry` (ADD, ADC).
pub open spec fn add8(r: Registers, v: u8, with_carry: bool) -> Registers {
    let c: int = if with_carry && flag_c(r.f()) {
        1
    } else {
        0
    };
    let s = r.a() + v + c;
    r.with_af(wrap8(s), make_f(wrap8(s) == 0, false, r.a() % 16 + v % 16 + c > 15, s > 255, r.f()))
}

/// The flags of an 8-bit subtraction from A, with the borrow subtracted when `with_carry`.
pub open spec fn sub8_flags(r: Registers, v: u8, with_carry: bool) -> u8 {
    let c: int = if with_carry && flag_c(r.f()) {
        1
    } else {
        0
    };
    make_f(wrap8(r.a() - v - c) == 0, true, r.a() % 16 < v % 16 + c, r.a() < v + c, r.f())
}

/// 8-bit subtraction from A (SUB, SBC).
pub open spec fn sub8(r: Registers, v: u8, with_carry: bool) -> Registers {
    let c: int = if with_carry && flag_c(r.f()) {
        1
    } else {
        0
    };
    r.with_af(wrap8(r.a() - v - c), sub8_flags(r, v, with_carry))
}

/// The result of a bitwise operation (AND, XOR, OR) with its flags.
pub open spec fn logic8(r: Registers, res: u8, half: bool) -> Registers {
    r.with_af(res, make_f(res == 0, false, half, false, r.f()))
}

/// The eight accumulator operations: ADD ADC SUB SBC AND XOR OR CP.
pub open spec fn alu(op: u8, r: Registers, v: u8) -> Registers {
    if op == 0 {
        add8(r, v, false)
    } else if op == 1 {
        add8(r, v, true)
    } else if op == 2 {
        sub8(r, v, false)
    } else if op == 3 {
        sub8(r, v, true)
    } else if op == 4 {
        logic8(r, r.a() & v, true)
    } else if op == 5 {
        logic8(r, r.a() ^ v, false)
    } else if op == 6 {
        logic8(r, r.a() | v, false)
    } else {
        r.with_af(r.a(), sub8_flags(r, v, false))
    }
}

/// The result of a rotate or shift: RLC RRC RL RR SLA SRA SWAP SRL.
pub open spec fn shift_result(kind: u8, v: u8, carry: bool) -> u8 {
    let c: int = if carry {
        1
    } else {
        0
    };
    if kind == 0 {
        wrap8(v * 2 + v / 128)
    } else if kind == 1 {
        (v / 2 + (v % 2) * 128) as u8
    } else if kind == 2 {
        wrap8(v * 2 + c)
    } else if kind == 3 {
        (v / 2 + c * 128) as u8
    } else if kind == 4 {
        wrap8(v * 2)
    } else if kind == 5 {
        (v / 2 + (if v >= 128 {
            128int
        } else {
            0
        })) as u8
    } else if kind == 6 {
        ((v % 16) * 16 + v / 16) as u8
    } else {
        v / 2
    }
}

/// The bit a rotate or shift moves into the carry flag.
pub open spec fn shift_carry(kind: u8, v: u8) -> bool {
    if kind == 0 || kind == 2 || kind == 4 {
        v >= 128
    } else if kind == 6 {
        false
    } else {
        v % 2 == 1
    }
}

/// The flags after a rotate or shift; the accumulator rotates (`zero` false) clear Z.
pub open spec fn shift_flags(f: u8, kind: u8, v: u8, zero: bool) -> u8 {
    make_f(zero && shift_result(kind, v, flag_c(f)) == 0, false, false, shift_carry(kind, v), f)
}

/// INC: the result and the flags (carry kept).
pub open spec fn inc8(f: u8, v: u8) -> (u8, u8) {
    let res = wrap8(v + 1);
    (res, make_f(res == 0, false, v % 16 == 15, flag_c(f), f))
}

/// DEC: the result and the flags (carry kept).
pub open spec fn dec8(f: u8, v: u8) -> (u8, u8) {
    let res = wrap8(v - 1);
    (res, make_f(res == 0, true, v % 16 == 0, flag_c(f), f))
}

/// ADD HL,rr.
pub open spec fn add_hl(r: Registers, v: u16) -> Registers {
    let s = r.hl + v;
    let f = make_f(flag_z(r.f()), false, r.hl % 4096 + v % 4096 > 4095, s > 0xFFFF, r.f());
    Registers { hl: wrap16(s), ..r.with_af(r.a(), f) }
}

/// The sum of a 16-bit value and a signed displacement, and the flags ADD SP,e sets.
pub open spec fn add_signed(value: u16, e: u8, f: u8) -> (u16, u8) {
    (wrap16(value + sext(e)), make_f(false, false, value % 16 + e % 16 > 15, value % 256 + e > 255, f))
}

/// DAA: the decimal adjustment of A after a BCD addition or subtraction.
pub open spec fn daa(r: Registers) -> Registers {
    let a = r.a();
    let f = r.f();
    let low = flag_h(f) || (!flag_n(f) && a % 16 > 9);
    let high = flag_c(f) || (!flag_n(f) && a > 0x99);
    let adjust: int = (if high {
        0x60int
    } else {
        0
    }) + (if low {
        6int
    } else {
        0
    });
    let res = if flag_n(f) {
        wrap8(a - adjust)
    } else {
        wrap8(a + adjust)
    };
    r.with_af(res, make_f(res == 0, flag_n(f), false, high, f))
}

/// A write to an 8-bit operand field: a register, or with 6 the byte at HL.
pub open spec fn put(r: Registers, index: u8, v: u8, cycles: int) -> Outcome {
    if index == 6 {
        Outcome { regs: r, store: Store::Byte(r.hl, v), signal: Signal::Nothing, result: Ok(Cycles(cycles as usize)) }
    } else {
        ok(r.with_reg(Reg::pair_spec(index), v), cycles)
    }
}

/// PUSH of `value`.
pub open spec fn push(r: Registers, value: u16, cycles: int) -> Outcome {
    if r.sp < 2 {
        overflow(r)
    } else {
        Outcome {
            regs: Registers { sp: (r.sp - 2) as u16, ..r },
            store: Store::Word((r.sp - 2) as u16, value),
            signal: Signal::Nothing,
            result: Ok(Cycles(cycles as usize)),
        }
    }
}

/// CALL: PC pushed, then a jump to `target`.
pub open spec fn call(r: Registers, target: u16, cycles: int) -> Outcome {
    if r.sp < 2 {
        overflow(r)
    } else {
        Outcome {
            regs: Registers { sp: (r.sp - 2) as u16, pc: target, ..r },
            store: Store::Word((r.sp - 2) as u16, r.pc),
            signal: Signal::Nothing,
            result: Ok(Cycles(cycles as usize)),
        }
    }
}

/// RET: PC popped; `signal` is EI for RETI.
pub open spec fn ret<C: Cartridge>(r: Registers, bus: Bus, cart: C, cycles: int, signal: Signal) -> Outcome {
    if r.sp > 0xFFFD {
        overflow(r)
    } else {
        Outcome {
            regs: Registers { sp: (r.sp + 2) as u16, pc: rd16(bus, cart, r.sp as int), ..r },
            store: Store::Nothing,
            signal,
            result: Ok(Cycles(cycles as usize)),
        }
    }
}

/// INC or DEC of an 8-bit operand field.
pub open spec fn inc_dec<C: Cartridge>(r: Registers, bus: Bus, cart: C, index: u8, dec: bool) -> Outcome {
    let v = r.read_index_spec(cart, bus, index);
    let (res, f) = if dec {
        dec8(r.f(), v)
    } else {
        inc8(r.f(), v)
    };
    put(r.with_af(r.a(), f), index, res, if index == 6 {
        12
    } else {
        4
    })
}

/// The CB-prefixed instructions: rotates and shifts, BIT, RES, SET.
pub open spec fn cb<C: Cartridge>(r: Registers, bus: Bus, cart: C) -> Outcome {
    let code = rd(bus, cart, r.pc as int);
    let r1 = next_pc(r, 1);
    let index = code % 8;
    let bits = (code / 8) % 8;
    let v = r1.read_index_spec(cart, bus, index);
    let f = r1.f();
    let (res, nf) = if code / 64 == 0 {
        (shift_result(bits, v, flag_c(f)), shift_flags(f, bits, v, true))
    } else if code / 64 == 1 {
        (v, make_f(v & (1u8 << bits) == 0, false, true, flag_c(f), f))
    } else if code / 64 == 2 {
        (v & !(1u8 << bits), f)
    } else {
        (v | (1u8 << bits), f)
    };
    put(r1.with_af(r1.a(), nf), index, res, if index == 6 {
        16
    } else {
        8
    })
}

/// NOP, LD (a16),SP, STOP, JR and JR cc (opcodes 0x00 to 0x38 with `z` 0).
#[verifier::opaque]
pub open spec fn control<C: Cartridge>(r: Registers, bus: Bus, cart: C, y: u8) -> Outcome {
    if y == 0 {
        ok(r, 4)
    } else if y == 1 {
        let r1 = next_pc(r, 2);
        Outcome {
            regs: r1,
            store: Store::Word(rd16(bus, cart, r.pc as int), r.sp),
            signal: Signal::Nothing,
            result: Ok(Cycles(20)),
        }
    } else if y == 2 {
        if bus.cgb.prepare_speed_switch {
            Outcome { regs: r, store: Store::Nothing, signal: Signal::SpeedSwitch, result: Ok(Cycles(4)) }
        } else {
            Outcome { regs: r, store: Store::Nothing, signal: Signal::Nothing, result: Err(OpcodeError::Stop) }
        }
    } else {
        let e = rd(bus, cart, r.pc as int);
        let cond = y == 3 || cc(r.f(), (y - 4) as u8);
        let r1 = next_pc(r, 1);
        if cond {
            ok(Registers { pc: wrap16(r.pc + 1 + sext(e)), ..r1 }, 12)
        } else {
            ok(r1, 8)
        }
    }
}

/// LD rr,d16 and ADD HL,rr.
#[verifier::opaque]
pub open spec fn load16<C: Cartridge>(r: Registers, bus: Bus, cart: C, y: u8) -> Outcome {
    let p = y / 2;
    if y % 2 == 0 {
        ok(next_pc(r, 2).with_dreg(DReg::pair1_spec(p), rd16(bus, cart, r.pc as int)), 12)
    } else {
        ok(add_hl(r, r.dreg(DReg::pair1_spec(p))), 8)
    }
}

/// LD (BC),A, LD (DE),A, LD (HL+),A, LD (HL-),A and the loads of A back from there.
#[verifier::opaque]
pub open spec fn indirect<C: Cartridge>(r: Registers, bus: Bus, cart: C, y: u8) -> Outcome {
    let p = y / 2;
    let address = if p == 0 {
        r.bc
    } else if p == 1 {
        r.de
    } else {
        r.hl
    };
    let r1 = if p == 2 {
        Registers { hl: wrap16(r.hl + 1), ..r }
    } else if p == 3 {
        Registers { hl: wrap16(r.hl - 1), ..r }
    } else {
        r
    };
    if y % 2 == 0 {
        Outcome {
            regs: r1,
            store: Store::Byte(address, r.a()),
            signal: Signal::Nothing,
            result: Ok(Cycles(8)),
        }
    } else {
        ok(r1.with_af(rd(bus, cart, address as int), r1.f()), 8)
    }
}

/// INC rr and DEC rr.
#[verifier::opaque]
pub open spec fn step16(r: Registers, y: u8) -> Outcome {
    let d = DReg::pair1_spec(y / 2);
    ok(r.with_dreg(d, if y % 2 == 0 {
        wrap16(r.dreg(d) + 1)
    } else {
        wrap16(r.dreg(d) - 1)
    }), 8)
}

/// LD r,d8 and LD (HL),d8.
#[verifier::opaque]
pub open spec fn load8<C: Cartridge>(r: Registers, bus: Bus, cart: C, y: u8) -> Outcome {
    put(next_pc(r, 1), y, rd(bus, cart, r.pc as int), if y == 6 {
        12
    } else {
        8
    })
}

/// RLCA RRCA RLA RRA DAA CPL SCF CCF.
#[verifier::opaque]
pub open spec fn accumulator(r: Registers, y: u8) -> Outcome {
    if y < 4 {
        ok(r.with_af(shift_result(y, r.a(), flag_c(r.f())), shift_flags(r.f(), y, r.a(), false)), 4)
    } else if y == 4 {
        ok(daa(r), 4)
    } else if y == 5 {
        ok(r.with_af(!r.a(), make_f(flag_z(r.f()), true, true, flag_c(r.f()), r.f())), 4)
    } else if y == 6 {
        ok(r.with_af(r.a(), make_f(flag_z(r.f()), false, false, true, r.f())), 4)
    } else {
        ok(r.with_af(r.a(), make_f(flag_z(r.f()), false, false, !flag_c(r.f()), r.f())), 4)
    }
}

/// Opcodes 0x00 to 0x3F.
pub open spec fn block0<C: Cartridge>(r: Registers, bus: Bus, cart: C, y: u8, z: u8) -> Outcome {
    if z == 0 {
        control(r, bus, cart, y)
    } else if z == 1 {
        load16(r, bus, cart, y)
    } else if z == 2 {
        indirect(r, bus, cart, y)
    } else if z == 3 {
        step16(r, y)
    } else if z == 4 {
        inc_dec(r, bus, cart, y, false)
    } else if z == 5 {
        inc_dec(r, bus, cart, y, true)
    } else if z == 6 {
        load8(r, bus, cart, y)
    } else {
        accumulator(r, y)
    }
}

/// Opcodes 0x40 to 0x7F: LD r,r' and HALT.
pub open spec fn block1<C: Cartridge>(r: Registers, bus: Bus, cart: C, y: u8, z: u8) -> Outcome {
    if y == 6 && z == 6 {
        Outcome { regs: r, store: Store::Nothing, signal: Signal::Halt, result: Ok(Cycles(4)) }
    } else {
        put(r, y, r.read_index_spec(cart, bus, z), if y == 6 || z == 6 {
            8
        } else {
            4
        })
    }
}

/// Opcodes 0x80 to 0xBF: accumulator operations on a register or the byte at HL.
pub open spec fn block2<C: Cartridge>(r: Registers, bus: Bus, cart: C, y: u8, z: u8) -> Outcome {
    ok(alu(y, r, r.read_index_spec(cart, bus, z)), if z == 6 {
        2
    } else {
        4
    })
}

/// RET cc, LDH (a8),A, LDH A,(a8), ADD SP,e and LD HL,SP+e.
#[verifier::opaque]
pub open spec fn control_high<C: Cartridge>(r: Registers, bus: Bus, cart: C, y: u8) -> Outcome {
    if y < 4 {
        if cc(r.f(), y) {
            ret(r, bus, cart, 20, Signal::Nothing)
        } else {
            ok(r, 8)
        }
    } else if y == 4 || y == 6 {
        let address = (0xFF00 + rd(bus, cart, r.pc as int)) as u16;
        let r1 = next_pc(r, 1);
        if y == 6 {
            ok(r1.with_af(rd(bus, cart, address as int), r1.f()), 12)
        } else {
            Outcome {
                regs: r1,
                store: Store::Byte(address, r.a()),
                signal: Signal::Nothing,
                result: Ok(Cycles(12)),
            }
        }
    } else {
        let r1 = next_pc(r, 1);
        let (v, f) = add_signed(r.sp, rd(bus, cart, r.pc as int), r1.f());
        let r2 = r1.with_af(r1.a(), f);
        if y == 5 {
            ok(Registers { sp: v, ..r2 }, 16)
        } else {
            ok(Registers { hl: v, ..r2 }, 12)
        }
    }
}

/// POP, RET, RETI, JP HL and LD SP,HL.
#[verifier::opaque]
pub open spec fn stack<C: Cartridge>(r: Registers, bus: Bus, cart: C, y: u8) -> Outcome {
    let p = y / 2;
    if y % 2 == 0 {
        if r.sp > 0xFFFD {
            overflow(r)
        } else {
            let value = rd16(bus, cart, r.sp as int);
            let d = DReg::pair2_spec(p);
            let r1 = Registers { sp: (r.sp + 2) as u16, ..r };
            ok(r1.with_dreg(d, if d == DReg::AF {
                ((value / 16) * 16 + r.af % 16) as u16
            } else {
                value
            }), 12)
        }
    } else if p == 0 {
        ret(r, bus, cart, 16, Signal::Nothing)
    } else if p == 1 {
        ret(r, bus, cart, 16, Signal::Ime(true))
    } else if p == 2 {
        ok(Registers { pc: r.hl, ..r }, 4)
    } else {
        ok(Registers { sp: r.hl, ..r }, 8)
    }
}

/// JP cc, LD (C),A, LD A,(C), LD (a16),A and LD A,(a16).
#[verifier::opaque]
pub open spec fn jump_io<C: Cartridge>(r: Registers, bus: Bus, cart: C, y: u8) -> Outcome {
    if y < 4 {
        let target = rd16(bus, cart, r.pc as int);
        let r1 = next_pc(r, 2);
        if cc(r.f(), y) {
            ok(Registers { pc: target, ..r1 }, 16)
        } else {
            ok(r1, 12)
        }
    } else {
        let (address, r1, cycles) = if y == 4 || y == 6 {
            ((0xFF00 + r.reg(Reg::C)) as u16, r, 8int)
        } else {
            (rd16(bus, cart, r.pc as int), next_pc(r, 2), 16int)
        };
        if y == 6 || y == 7 {
            ok(r1.with_af(rd(bus, cart, address as int), r1.f()), cycles)
        } else {
            Outcome {
                regs: r1,
                store: Store::Byte(address, r.a()),
                signal: Signal::Nothing,
                result: Ok(Cycles(cycles as usize)),
            }
        }
    }
}

/// JP a16, the CB prefix, DI, EI and the four unused opcodes of this column.
#[verifier::opaque]
pub open spec fn misc<C: Cartridge>(r: Registers, bus: Bus, cart: C, y: u8) -> Outcome {
    if y == 0 {
        ok(Registers { pc: rd16(bus, cart, r.pc as int), ..next_pc(r, 2) }, 16)
    } else if y == 1 {
        cb(r, bus, cart)
    } else if y == 6 || y == 7 {
        Outcome { regs: r, store: Store::Nothing, signal: Signal::Ime(y == 7), result: Ok(Cycles(4)) }
    } else {
        illegal(r)
    }
}

/// CALL cc (unused opcodes for `y` 4 to 7).
#[verifier::opaque]
pub open spec fn call_cc<C: Cartridge>(r: Registers, bus: Bus, cart: C, y: u8) -> Outcome {
    if y < 4 {
        let r1 = next_pc(r, 2);
        if cc(r.f(), y) {
            call(r1, rd16(bus, cart, r.pc as int), 24)
        } else {
            ok(r1, 12)
        }
    } else {
        illegal(r)
    }
}

/// PUSH and CALL a16 (unused opcodes for the other odd `y`).
#[verifier::opaque]
pub open spec fn call_push<C: Cartridge>(r: Registers, bus: Bus, cart: C, y: u8) -> Outcome {
    let p = y / 2;
    if y % 2 == 1 {
        if p == 0 {
            call(next_pc(r, 2), rd16(bus, cart, r.pc as int), 24)
        } else {
            illegal(r)
        }
    } else {
        push(r, r.dreg(DReg::pair2_spec(p)), 16)
    }
}

/// Opcodes 0xC0 to 0xFF.
pub open spec fn block3<C: Cartridge>(r: Registers, bus: Bus, cart: C, y: u8, z: u8) -> Outcome {
    if z == 0 {
        control_high(r, bus, cart, y)
    } else if z == 1 {
        stack(r, bus, cart, y)
    } else if z == 2 {
        jump_io(r, bus, cart, y)
    } else if z == 3 {
        misc(r, bus, cart, y)
    } else if z == 4 {
        call_cc(r, bus, cart, y)
    } else if z == 5 {
        call_push(r, bus, cart, y)
    } else if z == 6 {
        ok(alu(y, next_pc(r, 1), rd(bus, cart, r.pc as int)), 8)
    } else {
        call(r, (y * 8) as u16, 16)
    }
}

/// The effect of the instruction `opcode`, with PC just past it.
pub open spec fn outcome<C: Cartridge>(r: Registers, bus: Bus, cart: C, opcode: u8) -> Outcome {
    let x = opcode / 64;
    let y = (opcode / 8) % 8;
    let z = opcode % 8;
    if x == 0 {
        block0(r, bus, cart, y, z)
    } else if x == 1 {
        block1(r, bus, cart, y, z)
    } else if x == 2 {
        block2(r, bus, cart, y, z)
    } else {
        block3(r, bus, cart, y, z)
    }
}

/// The controller after HALT.
pub open spec fn halted(i: Interrupts) -> Interrupts {
    Interrupts { pause: PauseState::Halt, halt_bug: i.pending() != 0, ..i }
}

/// The controller after EI (`true`) or DI.
pub open spec fn ime_scheduled(i: Interrupts, value: bool) -> Interrupts {
    Interrupts { ime: Ime { update: Some((true, value)), ..i.ime }, ..i }
}

/// The bus after a signal.
pub open spec fn signalled(bus: Bus, s: Signal) -> Bus {
    match s {
        Signal::Nothing => bus,
        Signal::Halt => Bus { interrupts: halted(bus.interrupts), ..bus },
        Signal::SpeedSwitch => Bus {
            cgb: Cgb { prepare_speed_switch: false, double_speed: !bus.cgb.double_speed, ..bus.cgb },
            ..bus
        },
        Signal::Ime(v) => Bus { interrupts: ime_scheduled(bus.interrupts, v), ..bus },
    }
}

/// Whether the bus and cartridge `post`, `post_cart` are `pre`, `pre_cart` after the store.
pub open spec fn stored<C: Cartridge>(pre: Bus, pre_cart: C, s: Store, post: Bus, post_cart: C) -> bool {
    match s {
        Store::Nothing => post == pre && post_cart == pre_cart,
        Store::Byte(a, v) => Bus::written(pre, post, pre_cart, post_cart, false, a, v),
        Store::Word(a, w) => Bus::word_written(pre, post, pre_cart, post_cart, a, w),
    }
}

/// Whether the state after is the state before with the outcome applied.
pub open spec fn performed<C: Cartridge>(
    pre: Bus,
    pre_cart: C,
    o: Outcome,
    post_regs: Registers,
    post: Bus,
    post_cart: C,
) -> bool {
    &&& post_regs == o.regs
    &&& match o.signal {
        Signal::Nothing => stored(pre, pre_cart, o.store, post, post_cart),
        _ => post == signalled(pre, o.signal) && post_cart == pre_cart,
    }
}

/// Every instruction takes between 2 and 24 T-cycles.
pub proof fn lemma_outcome_cycles<C: Cartridge>(r: Registers, bus: Bus, cart: C, opcode: u8)
    ensures
        outcome(r, bus, cart, opcode).result matches Ok(c) ==> 2 <= c.0 <= 24,
{
    reveal(control);
    reveal(load16);
    reveal(indirect);
    reveal(step16);
    reveal(load8);
    reveal(accumulator);
    reveal(control_high);
    reveal(stack);
    reveal(jump_io);
    reveal(misc);
    reveal(call_cc);
    reveal(call_push);
}

} // verus!

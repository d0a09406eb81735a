use vstd::prelude::*;

use crate::bus::Bus;
use crate::cartridge::Cartridge;
use crate::util::Address;

verus! {

/// Bit of the carry flag in F.
pub const FLAG_CARRY: u8 = 0x10;

/// Bit of the half-carry flag in F.
pub const FLAG_HALF_CARRY: u8 = 0x20;

/// Bit of the subtraction flag in F.
pub const FLAG_NEGATIVE: u8 = 0x40;

/// Bit of the zero flag in F.
pub const FLAG_ZERO: u8 = 0x80;

/// The SM83 register file, as its six 16-bit pairs.
#[derive(Debug, Clone, Copy, PartialEq, Eq, Structural)]
pub struct Registers {
    pub bc: u16,
    pub de: u16,
    pub hl: u16,
    pub af: u16,
    pub sp: u16,
    pub pc: u16,
}

/// An 8-bit register: the high or low half of a pair.
#[derive(Debug, Clone, Copy, PartialEq, Eq, Structural)]
pub enum Reg {
    B,
    C,
    D,
    E,
    H,
    L,
    /// Accumulator
    A,
    /// Flags
    F,
}

/// A 16-bit register.
#[derive(Debug, Clone, Copy, PartialEq, Eq, Structural)]
pub enum DReg {
    BC,
    DE,
    HL,
    /// Accumulator & Flags
    AF,
    SP,
    PC,
}

/// The high byte of a word.
pub open spec fn hi(w: u16) -> u8 {
    (w / 256) as u8
}

/// The low byte of a word.
pub open spec fn lo(w: u16) -> u8 {
    (w % 256) as u8
}

/// The word with high byte `h` and low byte `l`.
pub open spec fn word(h: u8, l: u8) -> u16 {
    (h * 256 + l) as u16
}

pub open spec fn flag_z(f: u8) -> bool {
    f & 0x80 != 0
}

pub open spec fn flag_n(f: u8) -> bool {
    f & 0x40 != 0
}

pub open spec fn flag_h(f: u8) -> bool {
    f & 0x20 != 0
}

pub open spec fn flag_c(f: u8) -> bool {
    f & 0x10 != 0
}

/// The flags byte with the four flags given and the low nibble of `low`.
pub open spec fn make_f(z: bool, n: bool, h: bool, c: bool, low: u8) -> u8 {
    (if z {
        0x80u8
    } else {
        0u8
    }) | (if n {
        0x40u8
    } else {
        0u8
    }) | (if h {
        0x20u8
    } else {
        0u8
    }) | (if c {
        0x10u8
    } else {
        0u8
    }) | (low & 0x0F)
}

/// A flags byte is its four flags and its low nibble.
pub proof fn lemma_make_f(x: u8, z: bool, n: bool, h: bool, c: bool, low: u8)
    requires
        flag_z(x) == z,
        flag_n(x) == n,
        flag_h(x) == h,
        flag_c(x) == c,
        x & 0x0F == low & 0x0F,
    ensures
        x == make_f(z, n, h, c, low),
{
    assert(x == make_f(z, n, h, c, low)) by (bit_vector)
        requires
            (x & 0x80 != 0) == z,
            (x & 0x40 != 0) == n,
            (x & 0x20 != 0) == h,
            (x & 0x10 != 0) == c,
            x & 0x0F == low & 0x0F,
    ;
}

/// The bytes of a word built from bytes.
pub proof fn lemma_word(h: u8, l: u8)
    ensures
        hi(word(h, l)) == h,
        lo(word(h, l)) == l,
{
}

/// The flags of a flags byte built from flags.
pub proof fn lemma_flags_of_make_f(z: bool, n: bool, h: bool, c: bool, low: u8)
    ensures
        flag_z(make_f(z, n, h, c, low)) == z,
        flag_n(make_f(z, n, h, c, low)) == n,
        flag_h(make_f(z, n, h, c, low)) == h,
        flag_c(make_f(z, n, h, c, low)) == c,
        make_f(z, n, h, c, low) & 0x0F == low & 0x0F,
{
    assert({
        &&& flag_z(make_f(z, n, h, c, low)) == z
        &&& flag_n(make_f(z, n, h, c, low)) == n
        &&& flag_h(make_f(z, n, h, c, low)) == h
        &&& flag_c(make_f(z, n, h, c, low)) == c
        &&& make_f(z, n, h, c, low) & 0x0F == low & 0x0F
    }) by (bit_vector);
}

impl Reg {
    /// The register that an instruction's 3-bit operand field names (6 names memory at HL).
    pub open spec fn pair_spec(value: u8) -> Reg {
        if value == 0 {
            Reg::B
        } else if value == 1 {
            Reg::C
        } else if value == 2 {
            Reg::D
        } else if value == 3 {
            Reg::E
        } else if value == 4 {
            Reg::H
        } else if value == 5 {
            Reg::L
        } else {
            Reg::A
        }
    }

    pub fn pair(value: u8) -> (r: Self)
        requires
            value < 8,
            value != 6,
        ensures
            r == Reg::pair_spec(value),
    {
        match value {
            0 => Self::B,
            1 => Self::C,
            2 => Self::D,
            3 => Self::E,
            4 => Self::H,
            5 => Self::L,
            _ => Self::A,
        }
    }
}

impl DReg {
    /// The pair that a 2-bit operand field names where SP is the fourth.
    pub open spec fn pair1_spec(p: u8) -> DReg {
        if p == 0 {
            DReg::BC
        } else if p == 1 {
            DReg::DE
        } else if p == 2 {
            DReg::HL
        } else {
            DReg::SP
        }
    }

    /// The pair that a 2-bit operand field names where AF is the fourth.
    pub open spec fn pair2_spec(p: u8) -> DReg {
        if p == 0 {
            DReg::BC
        } else if p == 1 {
            DReg::DE
        } else if p == 2 {
            DReg::HL
        } else {
            DReg::AF
        }
    }

    pub fn pair1(p: u8) -> (r: Self)
        requires
            p < 4,
        ensures
            r == DReg::pair1_spec(p),
    {
        match p {
            0 => DReg::BC,
            1 => DReg::DE,
            2 => DReg::HL,
            _ => DReg::SP,
        }
    }

    pub fn pair2(p: u8) -> (r: Self)
        requires
            p < 4,
        ensures
            r == DReg::pair2_spec(p),
    {
        match p {
            0 => DReg::BC,
            1 => DReg::DE,
            2 => DReg::HL,
            _ => DReg::AF,
        }
    }
}

impl Registers {
    pub open spec fn reg(self, r: Reg) -> u8 {
        match r {
            Reg::B => hi(self.bc),
            Reg::C => lo(self.bc),
            Reg::D => hi(self.de),
            Reg::E => lo(self.de),
            Reg::H => hi(self.hl),
            Reg::L => lo(self.hl),
            Reg::A => hi(self.af),
            Reg::F => lo(self.af),
        }
    }

    pub open spec fn with_reg(self, r: Reg, v: u8) -> Registers {
        match r {
            Reg::B => Registers { bc: word(v, lo(self.bc)), ..self },
            Reg::C => Registers { bc: word(hi(self.bc), v), ..self },
            Reg::D => Registers { de: word(v, lo(self.de)), ..self },
            Reg::E => Registers { de: word(hi(self.de), v), ..self },
            Reg::H => Registers { hl: word(v, lo(self.hl)), ..self },
            Reg::L => Registers { hl: word(hi(self.hl), v), ..self },
            Reg::A => Registers { af: word(v, lo(self.af)), ..self },
            Reg::F => Registers { af: word(hi(self.af), v), ..self },
        }
    }

    pub open spec fn dreg(self, d: DReg) -> u16 {
        match d {
            DReg::BC => self.bc,
            DReg::DE => self.de,
            DReg::HL => self.hl,
            DReg::AF => self.af,
            DReg::SP => self.sp,
            DReg::PC => self.pc,
        }
    }

    pub open spec fn with_dreg(self, d: DReg, v: u16) -> Registers {
        match d {
            DReg::BC => Registers { bc: v, ..self },
            DReg::DE => Registers { de: v, ..self },
            DReg::HL => Registers { hl: v, ..self },
            DReg::AF => Registers { af: v, ..self },
            DReg::SP => Registers { sp: v, ..self },
            DReg::PC => Registers { pc: v, ..self },
        }
    }

    pub open spec fn a(self) -> u8 {
        hi(self.af)
    }

    pub open spec fn f(self) -> u8 {
        lo(self.af)
    }

    /// The registers with A and F replaced.
    pub open spec fn with_af(self, a: u8, f: u8) -> Registers {
        Registers { af: word(a, f), ..self }
    }

    /// The power-on state: PC at the cartridge entry point, SP at the top of HRAM.
    pub open spec fn default_spec() -> Registers {
        Registers { bc: 0, de: 0, hl: 0, af: 0, sp: 0xFFFE, pc: 0x100 }
    }

    pub fn default() -> (r: Self)
        ensures
            r == Registers::default_spec(),
    {
        Self { bc: 0, de: 0, hl: 0, af: 0, sp: 0xFFFE, pc: 0x100 }
    }

    pub fn new(bc: u16, de: u16, hl: u16, af: u16, sp: u16, pc: u16) -> (r: Self)
        ensures
            r == (Registers { bc, de, hl, af, sp, pc }),
    {
        Self { bc, de, hl, af, sp, pc }
    }

    /// The register file from its eight 8-bit registers and the two 16-bit ones.
    pub fn new_single(b: u8, c: u8, d: u8, e: u8, h: u8, l: u8, a: u8, f: u8, sp: u16, pc: u16) -> (r:
        Self)
        ensures
            r.reg(Reg::B) == b && r.reg(Reg::C) == c,
            r.reg(Reg::D) == d && r.reg(Reg::E) == e,
            r.reg(Reg::H) == h && r.reg(Reg::L) == l,
            r.reg(Reg::A) == a && r.reg(Reg::F) == f,
            r.sp == sp && r.pc == pc,
    {
        Self {
            bc: (b as u16) * 256 + c as u16,
            de: (d as u16) * 256 + e as u16,
            hl: (h as u16) * 256 + l as u16,
            af: (a as u16) * 256 + f as u16,
            sp,
            pc,
        }
    }

    /// An 8-bit register.
    pub fn get(&self, r: Reg) -> (v: u8)
        ensures
            v == self.reg(r),
    {
        match r {
            Reg::B => (self.bc / 256) as u8,
            Reg::C => (self.bc % 256) as u8,
            Reg::D => (self.de / 256) as u8,
            Reg::E => (self.de % 256) as u8,
            Reg::H => (self.hl / 256) as u8,
            Reg::L => (self.hl % 256) as u8,
            Reg::A => (self.af / 256) as u8,
            Reg::F => (self.af % 256) as u8,
        }
    }

    /// Sets an 8-bit register; the other half of its pair keeps its value.
    pub fn set(&mut self, r: Reg, v: u8)
        ensures
            *final(self) == old(self).with_reg(r, v),
    {
        let vh = (v as u16) * 256;
        match r {
            Reg::B => self.bc = vh + self.bc % 256,
            Reg::C => self.bc = (self.bc / 256) * 256 + v as u16,
            Reg::D => self.de = vh + self.de % 256,
            Reg::E => self.de = (self.de / 256) * 256 + v as u16,
            Reg::H => self.hl = vh + self.hl % 256,
            Reg::L => self.hl = (self.hl / 256) * 256 + v as u16,
            Reg::A => self.af = vh + self.af % 256,
            Reg::F => self.af = (self.af / 256) * 256 + v as u16,
        }
    }

    /// A 16-bit register.
    pub fn get16(&self, d: DReg) -> (v: u16)
        ensures
            v == self.dreg(d),
    {
        match d {
            DReg::BC => self.bc,
            DReg::DE => self.de,
            DReg::HL => self.hl,
            DReg::AF => self.af,
            DReg::SP => self.sp,
            DReg::PC => self.pc,
        }
    }

    /// Sets a 16-bit register.
    pub fn set16(&mut self, d: DReg, v: u16)
        ensures
            *final(self) == old(self).with_dreg(d, v),
    {
        match d {
            DReg::BC => self.bc = v,
            DReg::DE => self.de = v,
            DReg::HL => self.hl = v,
            DReg::AF => self.af = v,
            DReg::SP => self.sp = v,
            DReg::PC => self.pc = v,
        }
    }

    /// What an 8-bit operand field reads: a register, or with 6 the byte at HL.
    pub open spec fn read_index_spec<C: Cartridge>(self, cart: C, bus: Bus, index: u8) -> u8 {
        if index == 6 {
            bus.read_spec(cart, false, self.hl)
        } else {
            self.reg(Reg::pair_spec(index))
        }
    }

    pub fn read_index<C: Cartridge>(&self, cart: &C, bus: &Bus, index: u8) -> (v: u8)
        requires
            bus.wf(),
            index < 8,
        ensures
            v == self.read_index_spec(*cart, *bus, index),
    {
        if index == 6 {
            bus.read::<false, C>(cart, Address::new(self.hl))
        } else {
            self.get(Reg::pair(index))
        }
    }

    /// Writes an 8-bit operand field: a register, or with 6 the byte at HL.
    pub fn write_index<C: Cartridge>(&mut self, cart: &mut C, bus: &mut Bus, index: u8, value: u8)
        requires
            old(bus).wf(),
            index < 8,
        ensures
            final(bus).wf(),
            index == 6 ==> *final(self) == *old(self) && Bus::written(
                *old(bus),
                *final(bus),
                *old(cart),
                *final(cart),
                false,
                old(self).hl,
                value,
            ),
            index != 6 ==> *final(self) == old(self).with_reg(Reg::pair_spec(index), value)
                && *final(bus) == *old(bus) && *final(cart) == *old(cart),
    {
        if index == 6 {
            bus.write::<false, C>(cart, Address::new(self.hl), value);
        } else {
            self.set(Reg::pair(index), value);
        }
    }

    /// Whether any flag of the mask is set.
    pub fn flag(&self, flag: u8) -> (r: bool)
        ensures
            r == (self.f() & flag != 0),
    {
        ((self.af % 256) as u8) & flag != 0
    }

    /// Sets (or clears) every flag of the mask; the other bits of F keep their values.
    pub fn set_flag(&mut self, flag: u8, value: bool)
        ensures
            final(self).bc == old(self).bc && final(self).de == old(self).de,
            final(self).hl == old(self).hl && final(self).sp == old(self).sp,
            final(self).pc == old(self).pc && final(self).a() == old(self).a(),
            final(self).f() == if value {
                old(self).f() | flag
            } else {
                old(self).f() & !flag
            },
            flag_z(final(self).f()) == if flag / 128 == 1 {
                value
            } else {
                flag_z(old(self).f())
            },
            flag_n(final(self).f()) == if (flag / 64) % 2 == 1 {
                value
            } else {
                flag_n(old(self).f())
            },
            flag_h(final(self).f()) == if (flag / 32) % 2 == 1 {
                value
            } else {
                flag_h(old(self).f())
            },
            flag_c(final(self).f()) == if (flag / 16) % 2 == 1 {
                value
            } else {
                flag_c(old(self).f())
            },
            flag % 16 == 0 ==> final(self).f() & 0x0F == old(self).f() & 0x0F,
    {
        let f = (self.af % 256) as u8;
        let nf = if value {
            f | flag
        } else {
            f & !flag
        };
        proof {
            assert({
                &&& (nf & 0x80 != 0) == if flag / 128 == 1 {
                    value
                } else {
                    f & 0x80 != 0
                }
                &&& (nf & 0x40 != 0) == if (flag / 64) % 2 == 1 {
                    value
                } else {
                    f & 0x40 != 0
                }
                &&& (nf & 0x20 != 0) == if (flag / 32) % 2 == 1 {
                    value
                } else {
                    f & 0x20 != 0
                }
                &&& (nf & 0x10 != 0) == if (flag / 16) % 2 == 1 {
                    value
                } else {
                    f & 0x10 != 0
                }
                &&& flag % 16 == 0 ==> nf & 0x0F == f & 0x0F
            }) by (bit_vector)
                requires
                    nf == if value {
                        f | flag
                    } else {
                        f & !flag
                    },
            ;
        }
        self.af = (self.af / 256) * 256 + nf as u16;
    }
}

} // verus!

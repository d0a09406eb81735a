use vstd::prelude::*;

use crate::bus::cgb::Cgb;
use crate::bus::ppu::palette::Palette;
use crate::util::Address;

verus! {

/// The LCD control and status registers, scroll and window positions, and palettes.
#[derive(Clone, Copy)]
pub struct PpuRegisters {
    pub lcdc: u8,
    pub stat: u8,
    pub scy: u8,
    pub scx: u8,
    pub ly: u8,
    pub lyc: u8,
    pub bgp: u8,
    pub obp0: u8,
    pub obp1: u8,
    pub wy: u8,
    pub wx: u8,
    pub opri: bool,
    pub bcp: Palette,
    pub ocp: Palette,
}

pub const ADDRESS_LCDC: u16 = 0xFF40;
pub const ADDRESS_STAT: u16 = 0xFF41;
pub const ADDRESS_SCY: u16 = 0xFF42;
pub const ADDRESS_SCX: u16 = 0xFF43;
pub const ADDRESS_LY: u16 = 0xFF44;
pub const ADDRESS_LYC: u16 = 0xFF45;
pub const ADDRESS_BGP: u16 = 0xFF47;
pub const ADDRESS_OBJP1: u16 = 0xFF48;
pub const ADDRESS_OBJP2: u16 = 0xFF49;
pub const ADDRESS_WY: u16 = 0xFF4A;
pub const ADDRESS_WX: u16 = 0xFF4B;
/// CGB only: object priority mode.
pub const ADDRESS_OPRI: u16 = 0xFF6C;
/// CGB only: background palette specification and data.
pub const ADDRESS_BCPS: u16 = 0xFF68;
pub const ADDRESS_BCPD: u16 = 0xFF69;
/// CGB only: object palette specification and data.
pub const ADDRESS_OCPS: u16 = 0xFF6A;
pub const ADDRESS_OCPD: u16 = 0xFF6B;

/// Interrupt request bits.
pub const INTERRUPT_VBLANK: u8 = 1;
pub const INTERRUPT_LCD: u8 = 2;

/// The four PPU modes.
pub const HBLANK: u8 = 0;
pub const VBLANK: u8 = 1;
pub const OAM: u8 = 2;
pub const TRANSFER: u8 = 3;

/// STAT bits.
pub const STAT_LY_COMPARE: u8 = 4;
pub const STAT_MODE_0_SELECT: u8 = 8;
pub const STAT_MODE_1_SELECT: u8 = 16;
pub const STAT_MODE_2_SELECT: u8 = 32;
pub const STAT_LYC_SELECT: u8 = 64;

/// LCDC bits.
pub const LCDC_BG: u8 = 1;
pub const LCDC_OBJ: u8 = 2;
pub const LCDC_OBJ_SIZE: u8 = 4;
pub const LCDC_BG_MAP: u8 = 8;
pub const LCDC_TILE_DATA: u8 = 16;
pub const LCDC_WINDOW: u8 = 32;
pub const LCDC_WINDOW_MAP: u8 = 64;
pub const LCDC_ENABLE: u8 = 128;

/// Whether an address is one of the PPU's registers.
pub open spec fn is_register_address(a: u16) -> bool {
    (0xFF40 <= a <= 0xFF45) || (0xFF47 <= a <= 0xFF4B) || (0xFF68 <= a <= 0xFF6C)
}

impl PpuRegisters {
    /// The power-on values of the registers.
    pub open spec fn powered_on(&self) -> bool {
        &&& self.lcdc == 0x91 && self.stat == 0x85 && self.scy == 0 && self.scx == 0 && self.ly == 0
        &&& self.lyc == 0 && self.bgp == 0xFC && self.obp0 == 0xFF && self.obp1 == 0xFF
        &&& self.wy == 0 && self.wx == 0 && !self.opri
        &&& self.bcp.cleared() && self.ocp.cleared()
    }

    pub fn new() -> (r: Self)
        ensures
            r.powered_on(),
            r.lcdc == 0x91 && r.stat == 0x85 && r.scy == 0 && r.scx == 0 && r.ly == 0,
            r.lyc == 0 && r.bgp == 0xFC && r.obp0 == 0xFF && r.obp1 == 0xFF,
            r.wy == 0 && r.wx == 0 && !r.opri,
    {
        Self {
            lcdc: 0x91,
            stat: 0x85,
            scy: 0,
            scx: 0,
            ly: 0,
            lyc: 0,
            bgp: 0xFC,
            obp0: 0xFF,
            obp1: 0xFF,
            wy: 0,
            wx: 0,
            opri: false,
            bcp: Palette::new(),
            ocp: Palette::new(),
        }
    }

    pub open spec fn lcdc_enabled_spec(&self) -> bool {
        self.lcdc & 0x80 != 0
    }

    pub fn lcdc_enabled(&self) -> (r: bool)
        ensures
            r == self.lcdc_enabled_spec(),
    {
        self.lcdc & 0x80 != 0
    }

    pub fn ly(&self) -> (r: u8)
        ensures
            r == self.ly,
    {
        self.ly
    }

    pub open spec fn read_spec(&self, cgb: Cgb, a: u16) -> u8 {
        if a == ADDRESS_LCDC {
            self.lcdc
        } else if a == ADDRESS_STAT {
            self.stat
        } else if a == ADDRESS_SCY {
            self.scy
        } else if a == ADDRESS_SCX {
            self.scx
        } else if a == ADDRESS_LY {
            self.ly
        } else if a == ADDRESS_LYC {
            self.lyc
        } else if a == ADDRESS_BGP {
            self.bgp
        } else if a == ADDRESS_OBJP1 {
            self.obp0
        } else if a == ADDRESS_OBJP2 {
            self.obp1
        } else if a == ADDRESS_WY {
            self.wy
        } else if a == ADDRESS_WX {
            self.wx
        } else if !cgb.enabled {
            0xFF
        } else if a == ADDRESS_OPRI {
            if self.opri {
                0xFF
            } else {
                0xFE
            }
        } else if a == ADDRESS_BCPS || a == ADDRESS_BCPD {
            self.bcp.read_spec((a - ADDRESS_BCPS) as u16)
        } else {
            self.ocp.read_spec((a - ADDRESS_OCPS) as u16)
        }
    }

    pub fn read(&self, cgb: &Cgb, address: &Address) -> (r: u8)
        requires
            is_register_address(address.0),
        ensures
            r == self.read_spec(*cgb, address.0),
    {
        let a = address.value();
        if a == ADDRESS_LCDC {
            self.lcdc
        } else if a == ADDRESS_STAT {
            self.stat
        } else if a == ADDRESS_SCY {
            self.scy
        } else if a == ADDRESS_SCX {
            self.scx
        } else if a == ADDRESS_LY {
            self.ly
        } else if a == ADDRESS_LYC {
            self.lyc
        } else if a == ADDRESS_BGP {
            self.bgp
        } else if a == ADDRESS_OBJP1 {
            self.obp0
        } else if a == ADDRESS_OBJP2 {
            self.obp1
        } else if a == ADDRESS_WY {
            self.wy
        } else if a == ADDRESS_WX {
            self.wx
        } else if !cgb.enabled() {
            0xFF
        } else if a == ADDRESS_OPRI {
            if self.opri {
                0xFF
            } else {
                0xFE
            }
        } else if a == ADDRESS_BCPS || a == ADDRESS_BCPD {
            self.bcp.read(a - ADDRESS_BCPS)
        } else {
            self.ocp.read(a - ADDRESS_OCPS)
        }
    }

    /// The registers after a write that turns the LCD on or off:
    /// mode reset (HBLANK when turned off, OAM when turned on) and LY cleared.
    pub open spec fn lcdc_written(self, value: u8) -> PpuRegisters {
        let was_enabled = self.lcdc & 0x80 != 0;
        if was_enabled != (value & 0x80 != 0) {
            PpuRegisters {
                lcdc: value,
                stat: (self.stat & 0xF8) | if was_enabled {
                    HBLANK
                } else {
                    OAM
                },
                ly: 0,
                ..self
            }
        } else {
            PpuRegisters { lcdc: value, ..self }
        }
    }

    /// The registers after a write of `value` to `a`, and whether the LCD was turned on or off.
    pub open spec fn write_spec(self, cgb: Cgb, a: u16, value: u8) -> (PpuRegisters, bool) {
        if a == ADDRESS_LCDC {
            (self.lcdc_written(value), (self.lcdc & 0x80 != 0) != (value & 0x80 != 0))
        } else {
            (
                if a == ADDRESS_STAT {
                    PpuRegisters { stat: (self.stat & 0x07) | (value & 0x78), ..self }
                } else if a == ADDRESS_SCY {
                    PpuRegisters { scy: value, ..self }
                } else if a == ADDRESS_SCX {
                    PpuRegisters { scx: value, ..self }
                } else if a == ADDRESS_LY {
                    self
                } else if a == ADDRESS_LYC {
                    PpuRegisters { lyc: value, ..self }
                } else if a == ADDRESS_BGP {
                    PpuRegisters { bgp: value, ..self }
                } else if a == ADDRESS_OBJP1 {
                    PpuRegisters { obp0: value & 0xFC, ..self }
                } else if a == ADDRESS_OBJP2 {
                    PpuRegisters { obp1: value & 0xFC, ..self }
                } else if a == ADDRESS_WY {
                    PpuRegisters { wy: value, ..self }
                } else if a == ADDRESS_WX {
                    PpuRegisters { wx: value, ..self }
                } else if !cgb.enabled {
                    self
                } else if a == ADDRESS_OPRI {
                    PpuRegisters { opri: value & 1 != 0, ..self }
                } else if a == ADDRESS_BCPS || a == ADDRESS_BCPD {
                    PpuRegisters { bcp: self.bcp.write_spec((a - ADDRESS_BCPS) as u16, value), ..self }
                } else {
                    PpuRegisters { ocp: self.ocp.write_spec((a - ADDRESS_OCPS) as u16, value), ..self }
                },
                false,
            )
        }
    }

    /// Writes a PPU register; returns whether the LCD was turned on or off.
    pub fn write(&mut self, cgb: &Cgb, address: &Address, value: u8) -> (r: bool)
        requires
            is_register_address(address.0),
        ensures
            (*final(self), r) == old(self).write_spec(*cgb, address.0, value),
    {
        let a = address.value();
        if a == ADDRESS_LCDC {
            let was_enabled = self.lcdc & 0x80 != 0;
            self.lcdc = value;
            let enabled = self.lcdc & 0x80 != 0;
            if was_enabled != enabled {
                self.stat = (self.stat & 0xF8) | if was_enabled {
                    HBLANK
                } else {
                    OAM
                };
                self.ly = 0;
                return true;
            }
        } else if a == ADDRESS_STAT {
            self.stat = (self.stat & 0x07) | (value & 0x78);
        } else if a == ADDRESS_SCY {
            self.scy = value;
        } else if a == ADDRESS_SCX {
            self.scx = value;
        } else if a == ADDRESS_LY {
        } else if a == ADDRESS_LYC {
            self.lyc = value;
        } else if a == ADDRESS_BGP {
            self.bgp = value;
        } else if a == ADDRESS_OBJP1 {
            self.obp0 = value & 0xFC;
        } else if a == ADDRESS_OBJP2 {
            self.obp1 = value & 0xFC;
        } else if a == ADDRESS_WY {
            self.wy = value;
        } else if a == ADDRESS_WX {
            self.wx = value;
        } else if cgb.enabled() {
            if a == ADDRESS_OPRI {
                self.opri = value & 1 != 0;
            } else if a == ADDRESS_BCPS || a == ADDRESS_BCPD {
                self.bcp.write(a - ADDRESS_BCPS, value);
            } else {
                self.ocp.write(a - ADDRESS_OCPS, value);
            }
        }
        false
    }

    /// The registers and interrupt requests after LY was set to `value`.
    pub open spec fn ly_updated(self, flags: u8, value: u8) -> (PpuRegisters, u8) {
        (
            PpuRegisters {
                ly: value,
                stat: if value == self.lyc {
                    self.stat | STAT_LY_COMPARE
                } else {
                    self.stat & !STAT_LY_COMPARE
                },
                ..self
            },
            if value == self.lyc && self.stat & STAT_LYC_SELECT != 0 {
                flags | INTERRUPT_LCD
            } else {
                flags
            },
        )
    }

    /// Sets LY; LY = LYC sets the coincidence flag and may request the LCD interrupt.
    pub fn update_ly(&mut self, flags: &mut u8, value: u8)
        ensures
            (*final(self), *final(flags)) == old(self).ly_updated(*old(flags), value),
    {
        self.ly = value;
        if self.ly == self.lyc {
            proof {
                let s = self.stat;
                assert((s | 4u8) & 64u8 == s & 64u8) by (bit_vector);
            }
            self.stat = self.stat | STAT_LY_COMPARE;
            if self.stat & STAT_LYC_SELECT != 0 {
                *flags = *flags | INTERRUPT_LCD;
            }
        } else {
            self.stat = self.stat & !STAT_LY_COMPARE;
        }
    }

    /// Whether entering `mode` with STAT `stat` requests the LCD interrupt.
    pub open spec fn mode_interrupt(stat: u8, mode: u8) -> bool {
        if mode == HBLANK {
            stat & STAT_MODE_0_SELECT != 0
        } else if mode == VBLANK {
            stat & STAT_MODE_1_SELECT != 0
        } else if mode == OAM {
            stat & STAT_MODE_2_SELECT != 0
        } else {
            false
        }
    }

    /// The registers and interrupt requests after the PPU entered `mode`.
    pub open spec fn mode_set(self, flags: u8, mode: u8) -> (PpuRegisters, u8) {
        let v = if mode == VBLANK {
            flags | INTERRUPT_VBLANK
        } else {
            flags
        };
        (
            PpuRegisters { stat: (self.stat & 0xF8) | mode, ..self },
            if PpuRegisters::mode_interrupt(self.stat, mode) {
                v | INTERRUPT_LCD
            } else {
                v
            },
        )
    }

    /// Enters `mode`, requesting the VBLANK and LCD interrupts as STAT selects.
    pub fn set_mode(&mut self, flags: &mut u8, mode: u8)
        requires
            mode <= 3,
        ensures
            (*final(self), *final(flags)) == old(self).mode_set(*old(flags), mode),
    {
        let old_stat = self.stat;
        self.stat = (self.stat & 0xF8) | mode;
        proof {
            assert(((old_stat & 0xF8) | mode) & 8u8 == old_stat & 8u8) by (bit_vector)
                requires
                    mode <= 3,
            ;
            assert(((old_stat & 0xF8) | mode) & 16u8 == old_stat & 16u8) by (bit_vector)
                requires
                    mode <= 3,
            ;
            assert(((old_stat & 0xF8) | mode) & 32u8 == old_stat & 32u8) by (bit_vector)
                requires
                    mode <= 3,
            ;
        }
        let mut interrupt = false;
        if mode == HBLANK {
            interrupt = self.stat & STAT_MODE_0_SELECT != 0;
        } else if mode == VBLANK {
            *flags = *flags | INTERRUPT_VBLANK;
            interrupt = self.stat & STAT_MODE_1_SELECT != 0;
        } else if mode == OAM {
            interrupt = self.stat & STAT_MODE_2_SELECT != 0;
        }
        if interrupt {
            *flags = *flags | INTERRUPT_LCD;
        }
    }

    pub open spec fn mode_spec(&self) -> u8 {
        self.stat & 0b11
    }

    pub fn mode(&self) -> (r: u8)
        ensures
            r == self.mode_spec(),
            r <= 3,
    {
        proof {
            let s = self.stat;
            assert(s & 3u8 <= 3) by (bit_vector);
        }
        self.stat & 0b11
    }
}

} // verus!

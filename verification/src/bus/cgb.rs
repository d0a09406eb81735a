use vstd::prelude::*;

use crate::cartridge::Cartridge;
use crate::util::Address;

verus! {

/// The Game Boy Color's mode flag, speed switch and undocumented registers.
#[derive(Debug, Clone, Copy)]
pub struct Cgb {
    pub enabled: bool,
    pub prepare_speed_switch: bool,
    pub double_speed: bool,
    pub ff72: u8,
    pub ff73: u8,
    pub ff74: u8,
    pub ff75: u8,
}

pub const ADDRESS_KEY0: u16 = 0xFF4C;

pub const ADDRESS_KEY1: u16 = 0xFF4D;

impl Cgb {
    /// The power-on state.
    pub open spec fn new_spec() -> Cgb {
        Cgb { enabled: false, prepare_speed_switch: false, double_speed: false, ff72: 0, ff73: 0, ff74: 0, ff75: 0 }
    }

    pub fn new() -> (r: Self)
        ensures
            r == Cgb::new_spec(),
            !r.enabled && !r.prepare_speed_switch && !r.double_speed,
            r.ff72 == 0 && r.ff73 == 0 && r.ff74 == 0 && r.ff75 == 0,
    {
        Self {
            enabled: false,
            prepare_speed_switch: false,
            double_speed: false,
            ff72: 0,
            ff73: 0,
            ff74: 0,
            ff75: 0,
        }
    }

    /// Turns colour mode on for a colour cartridge and off otherwise.
    pub fn set_enabled<C: Cartridge>(&mut self, cart: &C)
        ensures
            *final(self) == (Cgb { enabled: cart.read_spec(0x143) & 0x80 != 0, ..*old(self) }),
    {
        self.enabled = cart.color();
    }

    pub open spec fn is_mapped(address: u16) -> bool {
        address == ADDRESS_KEY0 || address == ADDRESS_KEY1 || (0xFF72 <= address <= 0xFF75)
    }

    pub open spec fn read_spec(&self, address: u16) -> u8 {
        if !self.enabled {
            0xFF
        } else if address == ADDRESS_KEY0 {
            0xFF
        } else if address == ADDRESS_KEY1 {
            0x7E | (if self.double_speed { 0x80u8 } else { 0u8 }) | (if self.prepare_speed_switch {
                1u8
            } else {
                0u8
            })
        } else if address == 0xFF72 {
            self.ff72
        } else if address == 0xFF73 {
            self.ff73
        } else if address == 0xFF74 {
            self.ff74
        } else {
            self.ff75 | 0x8F
        }
    }

    pub fn read_mapped(&self, address: &Address) -> (r: u8)
        requires
            Cgb::is_mapped(address.0),
        ensures
            r == self.read_spec(address.0),
    {
        if !self.enabled {
            return 0xFF;
        }
        let a = address.value();
        if a == ADDRESS_KEY0 {
            0xFF
        } else if a == ADDRESS_KEY1 {
            0x7E | (if self.double_speed {
                0x80u8
            } else {
                0u8
            }) | (if self.prepare_speed_switch {
                1u8
            } else {
                0u8
            })
        } else if a == 0xFF72 {
            self.ff72
        } else if a == 0xFF73 {
            self.ff73
        } else if a == 0xFF74 {
            self.ff74
        } else {
            self.ff75 | 0x8F
        }
    }

    pub open spec fn write_spec(self, address: u16, value: u8) -> Cgb {
        if !self.enabled || address == ADDRESS_KEY0 {
            self
        } else if address == ADDRESS_KEY1 {
            Cgb { prepare_speed_switch: value & 1 != 0, ..self }
        } else if address == 0xFF72 {
            Cgb { ff72: value, ..self }
        } else if address == 0xFF73 {
            Cgb { ff73: value, ..self }
        } else if address == 0xFF74 {
            Cgb { ff74: value, ..self }
        } else {
            Cgb { ff75: value, ..self }
        }
    }

    pub fn write_mapped(&mut self, address: &Address, value: u8)
        requires
            Cgb::is_mapped(address.0),
        ensures
            *final(self) == old(self).write_spec(address.0, value),
    {
        if !self.enabled {
            return;
        }
        let a = address.value();
        if a == ADDRESS_KEY0 {
        } else if a == ADDRESS_KEY1 {
            self.prepare_speed_switch = value & 1 != 0;
        } else if a == 0xFF72 {
            self.ff72 = value;
        } else if a == 0xFF73 {
            self.ff73 = value;
        } else if a == 0xFF74 {
            self.ff74 = value;
        } else {
            self.ff75 = value;
        }
    }

    pub fn double_speed(&self) -> (r: bool)
        ensures
            r == self.double_speed,
    {
        self.double_speed
    }

    /// Performs a prepared speed switch; returns whether one was prepared.
    pub fn disarm(&mut self) -> (r: bool)
        ensures
            r == old(self).prepare_speed_switch,
            *final(self) == if r {
                Cgb {
                    prepare_speed_switch: false,
                    double_speed: !old(self).double_speed,
                    ..*old(self)
                }
            } else {
                *old(self)
            },
    {
        if self.prepare_speed_switch {
            self.prepare_speed_switch = false;
            self.double_speed = !self.double_speed;
            true
        } else {
            false
        }
    }

    pub fn enabled(&self) -> (r: bool)
        ensures
            r == self.enabled,
    {
        self.enabled
    }
}

} // verus!

use vstd::prelude::*;

use crate::util::Controls;

verus! {

/// Which half of the buttons the joypad register shows.
#[derive(Debug, Clone, Copy, PartialEq, Eq, Structural)]
pub enum Select {
    Neither,
    DPad,
    Buttons,
}

/// The joypad register (P1).
#[derive(Debug, Clone, Copy, PartialEq, Eq, Structural)]
pub struct Joypad {
    pub select: Select,
    /// One bit per button, cleared while it is held: the d-pad in bits 0 to 3, the others above.
    pub state: u8,
}

/// The interrupt request bit of the joypad.
pub const INTERRUPT_BIT: u8 = 0x10;

impl Joypad {
    /// The power-on state.
    pub open spec fn new_spec() -> Joypad {
        Joypad { select: Select::Neither, state: 0xFF }
    }

    pub fn new() -> (r: Self)
        ensures
            r == Joypad::new_spec(),
            r.select == Select::Neither,
            r.state == 0xFF,
    {
        Self { select: Select::Neither, state: 0xFF }
    }

    pub open spec fn read_spec(self) -> u8 {
        match self.select {
            Select::Neither => 0xF,
            Select::DPad => self.state & 0xF,
            Select::Buttons => self.state >> 4u8,
        }
    }

    pub fn read(&self) -> (r: u8)
        ensures
            r == self.read_spec(),
    {
        match self.select {
            Select::Neither => 0xF,
            Select::DPad => self.state & 0xF,
            Select::Buttons => self.state >> 4u8,
        }
    }

    pub open spec fn select_for(value: u8) -> Select {
        if (value & 0x30) >> 4u8 == 2 {
            Select::DPad
        } else if (value & 0x30) >> 4u8 == 1 {
            Select::Buttons
        } else {
            Select::Neither
        }
    }

    /// Selects the half of the buttons that bits 4 and 5 of `value` name.
    pub fn write(&mut self, value: u8)
        ensures
            final(self).select == Joypad::select_for(value),
            final(self).state == old(self).state,
    {
        let sel = (value & 0x30) >> 4u8;
        self.select = if sel == 2 {
            Select::DPad
        } else if sel == 1 {
            Select::Buttons
        } else {
            Select::Neither
        };
    }

    /// The button state after `control` was pressed (`down`) or released.
    pub open spec fn updated_state(state: u8, control: Controls, down: bool) -> u8 {
        let bit: u8 = (1u8 << control.bit_spec());
        (state & !bit) | (if down { 0u8 } else { bit })
    }

    /// Records a press or release; a release requests the joypad interrupt.
    pub fn update(&mut self, flags: &mut u8, input: (Controls, bool))
        ensures
            final(self).state == Joypad::updated_state(old(self).state, input.0, input.1),
            final(self).select == old(self).select,
            *final(flags) == if input.1 {
                *old(flags)
            } else {
                *old(flags) | INTERRUPT_BIT
            },
    {
        let (control, down) = input;
        let shift = control.bit();
        let bit: u8 = 1u8 << shift;
        let up = !down;
        self.state = (self.state & !bit) | (if up {
            bit
        } else {
            0
        });
        if up {
            *flags = *flags | INTERRUPT_BIT;
        }
    }
}

} // verus!

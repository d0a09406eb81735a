use vstd::prelude::*;

use crate::cartridge::{
    byte_at, byte_or_open_bus, ram_banks, ram_banks_spec, rom_banks, rom_banks_spec, store_at,
    store_if_present, zeroed, Cartridge,
};
use crate::util::Address;

verus! {

/// The MBC5 memory bank controller: up to 8 MiB of ROM and 128 KiB of RAM.
pub struct MBC5 {
    pub rom: Vec<u8>,
    pub ram: Vec<u8>,
    pub ram_on: bool,
    pub rumble: bool,
    pub rombank: usize,
    pub rambank: usize,
    pub rombanks: usize,
    pub rambanks: usize,
}

impl MBC5 {
    /// The ROM bank mapped at `address`: bank 0 below `0x4000`, else the selected bank
    /// reduced modulo the bank count (where the header announces one).
    pub open spec fn rom_bank_at(&self, address: u16) -> int {
        if address < 0x4000 {
            0
        } else if self.rombanks == 0 {
            self.rombank as int
        } else {
            self.rombank as int % self.rombanks as int
        }
    }

    pub open spec fn ram_accessible(&self) -> bool {
        self.ram_on && self.rambank < self.rambanks
    }

    pub open spec fn ram_index(&self, address: u16) -> int {
        self.rambank as int * 0x2000 + (address as int % 0x2000)
    }

    /// The state right after the cartridge was built from `data`.
    pub open spec fn is_initial(&self, data: Seq<u8>) -> bool {
        let code = data[0x147];
        let rambanks: usize = if code == 0x1A || code == 0x1B || code == 0x1D || code == 0x1E {
            ram_banks_spec(data[0x149]) as usize
        } else {
            0
        };
        &&& self.rom@ == data
        &&& self.ram@ == Seq::new(rambanks as nat * 0x2000, |i: int| 0u8)
        &&& !self.ram_on
        &&& self.rumble == (0x1C <= code <= 0x1E)
        &&& self.rombank == 1
        &&& self.rambank == 0
        &&& self.rombanks == rom_banks_spec(data[0x148]) as usize
        &&& self.rambanks == rambanks
    }

    pub fn new(data: &[u8]) -> (r: Self)
        requires
            data@.len() >= 0x150,
        ensures
            r.is_initial(data@),
    {
        let code = data[0x147];
        let rambanks: usize = if code == 0x1A || code == 0x1B || code == 0x1D || code == 0x1E {
            ram_banks(data) as usize
        } else {
            0
        };
        let rumble = 0x1C <= code && code <= 0x1E;
        Self {
            rombanks: rom_banks(data) as usize,
            rom: vstd::slice::slice_to_vec(data),
            ram: zeroed(rambanks * 0x2000),
            ram_on: false,
            rumble,
            rombank: 1,
            rambank: 0,
            rambanks,
        }
    }

    fn readrom(&self, address: u16) -> (r: u8)
        requires
            address <= 0x7FFF,
        ensures
            r == byte_or_open_bus(
                self.rom@,
                self.rom_bank_at(address) * 0x4000 + (address as int % 0x4000),
            ),
    {
        let _ = self.rom.len();
        let bank: usize = if address < 0x4000 {
            0
        } else if self.rombanks == 0 {
            self.rombank
        } else {
            self.rombank % self.rombanks
        };
        match bank.checked_mul(0x4000) {
            Some(base) => match base.checked_add(address as usize % 0x4000) {
                Some(index) => byte_at(&self.rom, index),
                None => 0xFF,
            },
            None => 0xFF,
        }
    }

    fn readram(&self, address: u16) -> (r: u8)
        ensures
            r == if self.ram_accessible() {
                byte_or_open_bus(self.ram@, self.ram_index(address))
            } else {
                0xFF
            },
    {
        if !self.ram_on || self.rambank >= self.rambanks {
            return 0xFF;
        }
        let _ = self.ram.len();
        match self.rambank.checked_mul(0x2000) {
            Some(base) => match base.checked_add(address as usize % 0x2000) {
                Some(index) => byte_at(&self.ram, index),
                None => 0xFF,
            },
            None => 0xFF,
        }
    }

    fn writerom(&mut self, address: u16, value: u8)
        requires
            address <= 0x7FFF,
        ensures
            MBC5::write_spec(*old(self), *final(self), address, value),
    {
        if address <= 0x1FFF {
            self.ram_on = value & 0x0F == 0x0A;
        } else if address <= 0x2FFF {
            self.rombank = (self.rombank & 0x100) | value as usize;
        } else if address <= 0x3FFF {
            self.rombank = (self.rombank & 0x0FF) | (((value & 1) as usize) << 8usize);
        } else if address <= 0x5FFF {
            let mask: u8 = if self.rumble {
                0x07
            } else {
                0x0F
            };
            self.rambank = (value & mask) as usize;
        }
    }

    fn writeram(&mut self, address: u16, value: u8)
        requires
            0xA000 <= address <= 0xBFFF,
        ensures
            MBC5::write_spec(*old(self), *final(self), address, value),
    {
        if !self.ram_on || self.rambank >= self.rambanks {
            return;
        }
        let _ = self.ram.len();
        if let Some(base) = self.rambank.checked_mul(0x2000) {
            if let Some(index) = base.checked_add(address as usize % 0x2000) {
                store_at(&mut self.ram, index, value);
            }
        }
    }
}

impl Cartridge for MBC5 {
    open spec fn read_spec(&self, address: u16) -> u8 {
        if address <= 0x7FFF {
            byte_or_open_bus(
                self.rom@,
                self.rom_bank_at(address) * 0x4000 + (address as int % 0x4000),
            )
        } else if 0xA000 <= address <= 0xBFFF {
            if self.ram_accessible() {
                byte_or_open_bus(self.ram@, self.ram_index(address))
            } else {
                0xFF
            }
        } else {
            0xFF
        }
    }

    open spec fn write_spec(pre: Self, post: Self, address: u16, value: u8) -> bool {
        &&& post.rom@ == pre.rom@
        &&& post.rumble == pre.rumble
        &&& post.rombanks == pre.rombanks
        &&& post.rambanks == pre.rambanks
        &&& post.ram_on == if address <= 0x1FFF {
            value & 0x0F == 0x0A
        } else {
            pre.ram_on
        }
        &&& post.rombank == if 0x2000 <= address <= 0x2FFF {
            (pre.rombank & 0x100) | value as usize
        } else if 0x3000 <= address <= 0x3FFF {
            (pre.rombank & 0x0FF) | (((value & 1) as usize) << 8usize)
        } else {
            pre.rombank
        }
        &&& post.rambank == if 0x4000 <= address <= 0x5FFF {
            (value & if pre.rumble {
                0x07u8
            } else {
                0x0Fu8
            }) as usize
        } else {
            pre.rambank
        }
        &&& post.ram@ == if 0xA000 <= address <= 0xBFFF && pre.ram_accessible() {
            store_if_present(pre.ram@, pre.ram_index(address), value)
        } else {
            pre.ram@
        }
    }

    open spec fn rom_spec(&self) -> Seq<u8> {
        self.rom@
    }

    open spec fn ram_spec(&self) -> Seq<u8> {
        self.ram@
    }

    fn read(&self, address: Address) -> (r: u8) {
        if address.value() <= 0x7FFF {
            self.readrom(address.value())
        } else {
            self.readram(address.value())
        }
    }

    fn write(&mut self, address: Address, value: u8) {
        if address.value() <= 0x7FFF {
            self.writerom(address.value(), value)
        } else {
            self.writeram(address.value(), value)
        }
    }

    fn rom(&self) -> (r: &[u8]) {
        self.rom.as_slice()
    }

    fn ram(&self) -> (r: &[u8]) {
        self.ram.as_slice()
    }

    fn load_ram(&mut self, ram: &[u8]) -> (r: bool) {
        if ram.len() == self.ram.len() {
            self.ram = vstd::slice::slice_to_vec(ram);
            true
        } else {
            false
        }
    }
}

} // verus!

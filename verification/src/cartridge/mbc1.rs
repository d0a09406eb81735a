use vstd::prelude::*;

use crate::cartridge::{
    byte_at, byte_or_open_bus, ram_banks, ram_banks_spec, rom_banks, rom_banks_spec, store_at,
    store_if_present, zeroed, Cartridge,
};
use crate::util::Address;

verus! {

/// The MBC1 memory bank controller: up to 2 MiB of ROM and 32 KiB of RAM.
pub struct MBC1 {
    pub rom: Vec<u8>,
    pub ram: Vec<u8>,
    pub ram_enabled: bool,
    pub bank_mode: bool,
    pub bank_bits: u8,
    pub rom_bank_lower: u8,
    pub rom_banks: u8,
    pub ram_banks: u8,
}

/// The lower ROM bank register after `value` was written to `0x2000..=0x3FFF`:
/// at least 1, reduced modulo the bank count where the header announces one that fits a byte.
pub open spec fn mbc1_lower_bank(value: u8, rom_banks: u8) -> u8 {
    let selected: u8 = if value & 0x1F == 0 { 1 } else { value & 0x1F };
    if rom_banks == 0 {
        selected
    } else {
        (selected % rom_banks) as u8
    }
}

impl MBC1 {
    /// The ROM bank mapped at `0x4000..=0x7FFF`.
    pub open spec fn rom_bank_spec(&self) -> u8 {
        if self.bank_mode {
            self.rom_bank_lower | (self.bank_bits << 5u8)
        } else {
            self.rom_bank_lower
        }
    }

    /// The RAM bank mapped at `0xA000..=0xBFFF`, where RAM is enabled and present.
    pub open spec fn ram_bank_spec(&self) -> Option<u8> {
        if self.ram_enabled {
            if self.ram_banks == 4 && !self.bank_mode {
                Some(self.bank_bits)
            } else if self.ram_banks > 0 {
                Some(0u8)
            } else {
                None
            }
        } else {
            None
        }
    }

    pub open spec fn ram_index(&self, address: u16) -> int {
        match self.ram_bank_spec() {
            Some(bank) => bank as int * 0x2000 + (address as int % 0x2000),
            None => -1,
        }
    }

    /// The state right after the cartridge was built from `data`.
    pub open spec fn is_initial(&self, data: Seq<u8>) -> bool {
        let ram_banks: u8 = if data[0x147] == 0x02 || data[0x147] == 0x03 {
            ram_banks_spec(data[0x149])
        } else {
            0
        };
        &&& self.rom@ == data
        &&& self.ram@ == Seq::new(ram_banks as nat * 0x2000, |i: int| 0u8)
        &&& !self.ram_enabled
        &&& !self.bank_mode
        &&& self.bank_bits == 0
        &&& self.rom_bank_lower == 1
        &&& self.rom_banks == rom_banks_spec(data[0x148]) as u8
        &&& self.ram_banks == ram_banks
    }

    pub fn new(data: &[u8]) -> (r: Self)
        requires
            data@.len() >= 0x150,
        ensures
            r.is_initial(data@),
    {
        let ram_banks: u8 = if data[0x147] == 0x02 || data[0x147] == 0x03 {
            ram_banks(data)
        } else {
            0
        };
        Self {
            rom: vstd::slice::slice_to_vec(data),
            ram: zeroed(ram_banks as usize * 0x2000),
            ram_enabled: false,
            bank_mode: false,
            bank_bits: 0,
            rom_bank_lower: 1,
            rom_banks: rom_banks(data) as u8,
            ram_banks,
        }
    }

    fn rom_bank(&self) -> (r: u8)
        ensures
            r == self.rom_bank_spec(),
    {
        if self.bank_mode {
            self.rom_bank_lower | (self.bank_bits << 5u8)
        } else {
            self.rom_bank_lower
        }
    }

    fn ram_bank(&self) -> (r: Option<u8>)
        ensures
            r == self.ram_bank_spec(),
    {
        if self.ram_enabled {
            if self.ram_banks == 4 && !self.bank_mode {
                return Some(self.bank_bits);
            } else if self.ram_banks > 0 {
                return Some(0);
            }
        }
        None
    }
}

impl Cartridge for MBC1 {
    open spec fn read_spec(&self, address: u16) -> u8 {
        if address <= 0x3FFF {
            byte_or_open_bus(self.rom@, address as int)
        } else if address <= 0x7FFF {
            byte_or_open_bus(
                self.rom@,
                self.rom_bank_spec() as int * 0x4000 + (address as int % 0x4000),
            )
        } else if 0xA000 <= address <= 0xBFFF {
            match self.ram_bank_spec() {
                Some(bank) => byte_or_open_bus(self.ram@, self.ram_index(address)),
                None => 0xFF,
            }
        } else {
            0xFF
        }
    }

    open spec fn write_spec(pre: Self, post: Self, address: u16, value: u8) -> bool {
        &&& post.rom@ == pre.rom@
        &&& post.rom_banks == pre.rom_banks
        &&& post.ram_banks == pre.ram_banks
        &&& post.ram_enabled == if address <= 0x1FFF {
            value & 0xF == 0xA
        } else {
            pre.ram_enabled
        }
        &&& post.rom_bank_lower == if 0x2000 <= address <= 0x3FFF {
            mbc1_lower_bank(value, pre.rom_banks)
        } else {
            pre.rom_bank_lower
        }
        &&& post.bank_bits == if 0x4000 <= address <= 0x5FFF && (pre.ram_banks == 4
            || pre.rom_banks >= 0x40) {
            value & 0x03
        } else {
            pre.bank_bits
        }
        &&& post.bank_mode == if 0x6000 <= address <= 0x7FFF && (pre.ram_banks > 1
            || pre.rom_banks > 0x20) {
            value & 0x01 == 1
        } else {
            pre.bank_mode
        }
        &&& post.ram@ == if 0xA000 <= address <= 0xBFFF && pre.ram_bank_spec() is Some {
            store_if_present(pre.ram@, pre.ram_index(address), value)
        } else {
            pre.ram@
        }
    }

    open spec fn rom_spec(&self) -> Seq<u8> {
        self.rom@
    }

    open spec fn ram_spec(&self) -> Seq<u8> {
        self.ram@
    }

    fn read(&self, address: Address) -> (r: u8) {
        let a = address.value();
        if a <= 0x3FFF {
            byte_at(&self.rom, address.index())
        } else if a <= 0x7FFF {
            byte_at(&self.rom, self.rom_bank() as usize * 0x4000 + (address.index() % 0x4000))
        } else {
            match self.ram_bank() {
                Some(bank) => byte_at(
                    &self.ram,
                    bank as usize * 0x2000 + (address.index() % 0x2000),
                ),
                None => 0xFF,
            }
        }
    }

    fn write(&mut self, address: Address, value: u8) {
        let a = address.value();
        if a <= 0x1FFF {
            self.ram_enabled = value & 0xF == 0xA;
        } else if a <= 0x3FFF {
            let selected: u8 = if value & 0x1F == 0 {
                1
            } else {
                value & 0x1F
            };
            self.rom_bank_lower = if self.rom_banks == 0 {
                selected
            } else {
                selected % self.rom_banks
            };
        } else if a <= 0x5FFF {
            if self.ram_banks == 4 || self.rom_banks >= 0x40 {
                self.bank_bits = value & 0x03;
            }
        } else if a <= 0x7FFF {
            if self.ram_banks > 1 || self.rom_banks > 0x20 {
                self.bank_mode = value & 0x01 == 1;
            }
        } else {
            if let Some(bank) = self.ram_bank() {
                let index = bank as usize * 0x2000 + (address.index() % 0x2000);
                store_at(&mut self.ram, index, value);
            }
        }
    }

    fn rom(&self) -> (r: &[u8]) {
        self.rom.as_slice()
    }

    fn ram(&self) -> (r: &[u8]) {
        self.ram.as_slice()
    }

    fn load_ram(&mut self, ram: &[u8]) -> (r: bool) {
        if ram.len() == self.ram.len() {
            self.ram = vstd::slice::slice_to_vec(ram);
            true
        } else {
            false
        }
    }
}

} // verus!

use vstd::prelude::*;

use crate::cartridge::{byte_at, byte_or_open_bus, Cartridge};
use crate::util::Address;

verus! {

/// A cartridge without a memory bank controller: 32 KiB of ROM and no RAM.
pub struct MBC0 {
    rom: Vec<u8>,
}

impl MBC0 {
    /// The state right after the cartridge was built from `data`.
    pub open spec fn is_initial(&self, data: Seq<u8>) -> bool {
        self.rom_spec() == data
    }

    pub fn new(data: &[u8]) -> (r: Self)
        ensures
            r.is_initial(data@),
    {
        Self { rom: vstd::slice::slice_to_vec(data) }
    }
}

impl Cartridge for MBC0 {
    open spec fn read_spec(&self, address: u16) -> u8 {
        if address <= 0x7FFF {
            byte_or_open_bus(self.rom_spec(), address as int)
        } else if 0xA000 <= address <= 0xBFFF {
            0
        } else {
            0xFF
        }
    }

    open spec fn write_spec(pre: Self, post: Self, address: u16, value: u8) -> bool {
        post.rom_spec() == pre.rom_spec()
    }

    closed spec fn rom_spec(&self) -> Seq<u8> {
        self.rom@
    }

    open spec fn ram_spec(&self) -> Seq<u8> {
        Seq::empty()
    }

    fn read(&self, address: Address) -> (r: u8) {
        if address.value() <= 0x7FFF {
            byte_at(&self.rom, address.index())
        } else {
            0
        }
    }

    fn write(&mut self, _address: Address, _value: u8) {
    }

    fn rom(&self) -> (r: &[u8]) {
        self.rom.as_slice()
    }

    fn ram(&self) -> (r: &[u8]) {
        &[]
    }

    fn load_ram(&mut self, ram: &[u8]) -> (r: bool) {
        ram.len() == 0
    }
}

} // verus!

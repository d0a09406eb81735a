pub mod mbc0;
pub mod mbc1;
pub mod mbc3;
pub mod mbc5;

use vstd::prelude::*;
use vstd::utf8::{decode_utf8, valid_utf8};

use crate::util::Address;
pub use mbc0::MBC0;
pub use mbc1::MBC1;
pub use mbc3::MBC3;
pub use mbc5::MBC5;

verus! {

/// Whether an address is served by the cartridge: ROM at `0x0000..=0x7FFF`,
/// external RAM at `0xA000..=0xBFFF`.
pub open spec fn is_cartridge_address(address: u16) -> bool {
    address <= 0x7FFF || (0xA000 <= address && address <= 0xBFFF)
}

/// The byte at `index`, or `0xFF` (an open bus) where `index` lies outside `data`.
pub open spec fn byte_or_open_bus(data: Seq<u8>, index: int) -> u8 {
    if 0 <= index < data.len() {
        data[index]
    } else {
        0xFF
    }
}

pub fn byte_at(data: &Vec<u8>, index: usize) -> (r: u8)
    ensures
        r == byte_or_open_bus(data@, index as int),
{
    if index < data.len() {
        data[index]
    } else {
        0xFF
    }
}

/// `data` with `value` at `index`, or `data` unchanged where `index` lies outside it.
pub open spec fn store_if_present(data: Seq<u8>, index: int, value: u8) -> Seq<u8> {
    if 0 <= index < data.len() {
        data.update(index, value)
    } else {
        data
    }
}

pub fn store_at(data: &mut Vec<u8>, index: usize, value: u8)
    ensures
        final(data)@ == store_if_present(old(data)@, index as int, value),
{
    if index < data.len() {
        data.set(index, value);
    }
}

/// `size` zero bytes.
pub fn zeroed(size: usize) -> (r: Vec<u8>)
    ensures
        r@ == Seq::new(size as nat, |i: int| 0u8),
{
    let mut v: Vec<u8> = Vec::new();
    let mut i: usize = 0;
    while i < size
        invariant
            i <= size,
            v@ == Seq::new(i as nat, |j: int| 0u8),
        decreases size - i,
    {
        v.push(0);
        i = i + 1;
    }
    v
}

/// Why a ROM image could not be turned into a cartridge.
#[derive(Debug, Clone, Copy, PartialEq, Eq, Structural)]
pub enum CartridgeError {
    /// The image is shorter than the cartridge header (`0x150` bytes).
    NoHeader,
    /// The header names a cartridge type that is not emulated.
    NotSupported(u8),
}

/// The number of 8 KiB RAM banks that the header byte `0x149` announces.
pub open spec fn ram_banks_spec(code: u8) -> u8 {
    if code == 1 || code == 2 {
        1
    } else if code == 3 {
        4
    } else if code == 4 {
        16
    } else if code == 5 {
        8
    } else {
        0
    }
}

/// The number of 16 KiB ROM banks that the header byte `0x148` announces.
pub open spec fn rom_banks_spec(code: u8) -> u16 {
    if code == 0 {
        2
    } else if code == 1 {
        4
    } else if code == 2 {
        8
    } else if code == 3 {
        16
    } else if code == 4 {
        32
    } else if code == 5 {
        64
    } else if code == 6 {
        128
    } else if code == 7 {
        256
    } else if code == 8 {
        512
    } else if code == 0x52 {
        72
    } else if code == 0x53 {
        80
    } else if code == 0x54 {
        96
    } else {
        0
    }
}

pub fn ram_banks(data: &[u8]) -> (r: u8)
    requires
        data@.len() > 0x149,
    ensures
        r == ram_banks_spec(data@[0x149]),
{
    let v = data[0x149];
    match v {
        1 | 2 => 1,
        3 => 4,
        4 => 16,
        5 => 8,
        _ => 0,
    }
}

pub fn rom_banks(data: &[u8]) -> (r: u16)
    requires
        data@.len() > 0x148,
    ensures
        r == rom_banks_spec(data@[0x148]),
{
    match data[0x148] {
        0 => 2,
        1 => 4,
        2 => 8,
        3 => 16,
        4 => 32,
        5 => 64,
        6 => 128,
        7 => 256,
        8 => 512,
        0x52 => 72,
        0x53 => 80,
        0x54 => 96,
        _ => 0,
    }
}

/// The title that the header holds at `0x134..0x144`, where it is valid UTF-8.
pub open spec fn title_bytes(rom: Seq<u8>) -> Seq<u8> {
    rom.subrange(0x134, 0x144)
}

pub open spec fn has_valid_title(rom: Seq<u8>) -> bool {
    rom.len() >= 0x144 && valid_utf8(title_bytes(rom))
}

/// The text that `std::str::from_utf8` decodes from `bytes`, where they are valid UTF-8.
#[verifier::external_body]
fn utf8_text(bytes: &[u8]) -> (r: Option<String>)
    ensures
        r is Some <==> valid_utf8(bytes@),
        r matches Some(s) ==> s@ == decode_utf8(bytes@),
{
    std::str::from_utf8(bytes).ok().map(|s| s.to_owned())
}

/// The behaviour shared by every memory bank controller.
pub trait Cartridge: Sized {
    /// What a read of `address` gives in the present state.
    spec fn read_spec(&self, address: u16) -> u8;

    /// Whether `post` is the state that a write of `value` to `address` leaves in `pre`.
    spec fn write_spec(pre: Self, post: Self, address: u16, value: u8) -> bool;

    /// The ROM image.
    spec fn rom_spec(&self) -> Seq<u8>;

    /// The external RAM.
    spec fn ram_spec(&self) -> Seq<u8>;

    /// The title in the cartridge header, or `UNKNOWN` where it is not valid UTF-8.
    fn title(&self) -> (r: String)
        ensures
            has_valid_title(self.rom_spec()) ==> r@ == decode_utf8(title_bytes(self.rom_spec())),
            !has_valid_title(self.rom_spec()) ==> r@ == "UNKNOWN"@,
    {
        let rom = self.rom();
        if rom.len() >= 0x144 {
            let bytes = vstd::slice::slice_subrange(rom, 0x134, 0x144);
            match utf8_text(bytes) {
                Some(s) => s,
                None => "UNKNOWN".to_owned(),
            }
        } else {
            "UNKNOWN".to_owned()
        }
    }

    /// Whether the cartridge is made for the Game Boy Color (header byte `0x143`, bit 7).
    fn color(&self) -> (r: bool)
        ensures
            r == (self.read_spec(0x143) & 0x80 != 0),
    {
        self.read(Address::new(0x143)) & 0x80 != 0
    }

    fn read(&self, address: Address) -> (r: u8)
        requires
            is_cartridge_address(address.0),
        ensures
            r == self.read_spec(address.0),
    ;

    fn write(&mut self, address: Address, value: u8)
        requires
            is_cartridge_address(address.0),
        ensures
            Self::write_spec(*old(self), *final(self), address.0, value),
    ;

    fn rom(&self) -> (r: &[u8])
        ensures
            r@ == self.rom_spec(),
    ;

    fn ram(&self) -> (r: &[u8])
        ensures
            r@ == self.ram_spec(),
    ;

    /// Replaces the external RAM with `ram` where the sizes agree.
    fn load_ram(&mut self, ram: &[u8]) -> (r: bool)
        ensures
            r == (ram@.len() == old(self).ram_spec().len()),
            r ==> final(self).ram_spec() == ram@,
            !r ==> final(self).ram_spec() == old(self).ram_spec(),
            final(self).rom_spec() == old(self).rom_spec(),
    ;
}

/// A cartridge of any of the emulated controller types.
pub enum AnyCartridge {
    Mbc0(MBC0),
    Mbc1(MBC1),
    Mbc3(MBC3),
    Mbc5(MBC5),
}

impl Cartridge for AnyCartridge {
    open spec fn read_spec(&self, address: u16) -> u8 {
        match self {
            AnyCartridge::Mbc0(c) => c.read_spec(address),
            AnyCartridge::Mbc1(c) => c.read_spec(address),
            AnyCartridge::Mbc3(c) => c.read_spec(address),
            AnyCartridge::Mbc5(c) => c.read_spec(address),
        }
    }

    open spec fn write_spec(pre: Self, post: Self, address: u16, value: u8) -> bool {
        match (pre, post) {
            (AnyCartridge::Mbc0(a), AnyCartridge::Mbc0(b)) => MBC0::write_spec(a, b, address, value),
            (AnyCartridge::Mbc1(a), AnyCartridge::Mbc1(b)) => MBC1::write_spec(a, b, address, value),
            (AnyCartridge::Mbc3(a), AnyCartridge::Mbc3(b)) => MBC3::write_spec(a, b, address, value),
            (AnyCartridge::Mbc5(a), AnyCartridge::Mbc5(b)) => MBC5::write_spec(a, b, address, value),
            _ => false,
        }
    }

    open spec fn rom_spec(&self) -> Seq<u8> {
        match self {
            AnyCartridge::Mbc0(c) => c.rom_spec(),
            AnyCartridge::Mbc1(c) => c.rom_spec(),
            AnyCartridge::Mbc3(c) => c.rom_spec(),
            AnyCartridge::Mbc5(c) => c.rom_spec(),
        }
    }

    open spec fn ram_spec(&self) -> Seq<u8> {
        match self {
            AnyCartridge::Mbc0(c) => c.ram_spec(),
            AnyCartridge::Mbc1(c) => c.ram_spec(),
            AnyCartridge::Mbc3(c) => c.ram_spec(),
            AnyCartridge::Mbc5(c) => c.ram_spec(),
        }
    }

    fn read(&self, address: Address) -> (r: u8) {
        match self {
            AnyCartridge::Mbc0(c) => c.read(address),
            AnyCartridge::Mbc1(c) => c.read(address),
            AnyCartridge::Mbc3(c) => c.read(address),
            AnyCartridge::Mbc5(c) => c.read(address),
        }
    }

    fn write(&mut self, address: Address, value: u8) {
        match self {
            AnyCartridge::Mbc0(c) => c.write(address, value),
            AnyCartridge::Mbc1(c) => c.write(address, value),
            AnyCartridge::Mbc3(c) => c.write(address, value),
            AnyCartridge::Mbc5(c) => c.write(address, value),
        }
    }

    fn rom(&self) -> (r: &[u8]) {
        match self {
            AnyCartridge::Mbc0(c) => c.rom(),
            AnyCartridge::Mbc1(c) => c.rom(),
            AnyCartridge::Mbc3(c) => c.rom(),
            AnyCartridge::Mbc5(c) => c.rom(),
        }
    }

    fn ram(&self) -> (r: &[u8]) {
        match self {
            AnyCartridge::Mbc0(c) => c.ram(),
            AnyCartridge::Mbc1(c) => c.ram(),
            AnyCartridge::Mbc3(c) => c.ram(),
            AnyCartridge::Mbc5(c) => c.ram(),
        }
    }

    fn load_ram(&mut self, ram: &[u8]) -> (r: bool) {
        match self {
            AnyCartridge::Mbc0(c) => c.load_ram(ram),
            AnyCartridge::Mbc1(c) => c.load_ram(ram),
            AnyCartridge::Mbc3(c) => c.load_ram(ram),
            AnyCartridge::Mbc5(c) => c.load_ram(ram),
        }
    }
}

/// The controller type that the header byte `0x147` selects, where it is emulated.
pub open spec fn controller_kind(code: u8) -> int {
    if code == 0x00 {
        0
    } else if 0x01 <= code <= 0x03 {
        1
    } else if 0x0F <= code <= 0x13 {
        3
    } else if 0x19 <= code <= 0x1E {
        5
    } else {
        -1
    }
}

/// Whether `r` is what loading the ROM image `data` gives: no header below 0x150 bytes, an
/// error for a controller this library does not have, else the controller of header byte
/// 0x147 in its initial state.
pub open spec fn loaded(data: Seq<u8>, r: Result<AnyCartridge, CartridgeError>) -> bool {
    &&& data.len() < 0x150 ==> r == Err::<AnyCartridge, CartridgeError>(CartridgeError::NoHeader)
    &&& data.len() >= 0x150 && controller_kind(data[0x147]) == -1 ==> r == Err::<
        AnyCartridge,
        CartridgeError,
    >(CartridgeError::NotSupported(data[0x147]))
    &&& data.len() >= 0x150 && controller_kind(data[0x147]) == 0 ==> (r matches Ok(
        AnyCartridge::Mbc0(c),
    ) && c.is_initial(data))
    &&& data.len() >= 0x150 && controller_kind(data[0x147]) == 1 ==> (r matches Ok(
        AnyCartridge::Mbc1(c),
    ) && c.is_initial(data))
    &&& data.len() >= 0x150 && controller_kind(data[0x147]) == 3 ==> (r matches Ok(
        AnyCartridge::Mbc3(c),
    ) && c.is_initial(data))
    &&& data.len() >= 0x150 && controller_kind(data[0x147]) == 5 ==> (r matches Ok(
        AnyCartridge::Mbc5(c),
    ) && c.is_initial(data))
}

/// Builds the cartridge that a ROM image describes.
pub fn load(data: &[u8]) -> (r: Result<AnyCartridge, CartridgeError>)
    ensures
        loaded(data@, r),
{
    if data.len() < 0x150 {
        return Err(CartridgeError::NoHeader);
    }
    let cartridge_type = data[0x147];
    if cartridge_type == 0x00 {
        Ok(AnyCartridge::Mbc0(MBC0::new(data)))
    } else if 0x01 <= cartridge_type && cartridge_type <= 0x03 {
        Ok(AnyCartridge::Mbc1(MBC1::new(data)))
    } else if 0x0F <= cartridge_type && cartridge_type <= 0x13 {
        Ok(AnyCartridge::Mbc3(MBC3::new(data)))
    } else if 0x19 <= cartridge_type && cartridge_type <= 0x1E {
        Ok(AnyCartridge::Mbc5(MBC5::new(data)))
    } else {
        Err(CartridgeError::NotSupported(cartridge_type))
    }
}

} // verus!

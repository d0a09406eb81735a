use gameboy_core::{load, Address, AnyCartridge, Cartridge, CartridgeError, GameboyColor};

#[test]
fn short_image_has_no_header() {
    assert!(matches!(load(&vec![0u8; 0x14F]), Err(CartridgeError::NoHeader)));
}

#[test]
fn unknown_controller_is_refused() {
    let mut rom = vec![0u8; 0x8000];
    rom[0x147] = 0xFC;
    assert!(matches!(load(&rom), Err(CartridgeError::NotSupported(0xFC))));
}

#[test]
fn plain_rom_reads_its_bytes() {
    let mut rom = vec![0u8; 0x8000];
    rom[0x1234] = 0xAB;
    rom[0x7FFF] = 0xCD;
    let cart = load(&rom).unwrap();
    assert!(matches!(cart, AnyCartridge::Mbc0(_)));
    assert_eq!(cart.read(Address(0x1234)), 0xAB);
    assert_eq!(cart.read(Address(0x7FFF)), 0xCD);
}

#[test]
fn title_is_decoded() {
    let mut rom = vec![0u8; 0x8000];
    rom[0x134..0x13A].copy_from_slice(b"TETRIS");
    let cart = load(&rom).unwrap();
    assert_eq!(cart.title(), "TETRIS\0\0\0\0\0\0\0\0\0\0");
}

#[test]
fn title_that_is_not_utf8_is_unknown() {
    let mut rom = vec![0u8; 0x8000];
    rom[0x134] = 0xFF;
    let cart = load(&rom).unwrap();
    assert_eq!(cart.title(), "UNKNOWN");
}

fn mbc1_rom(banks: usize) -> Vec<u8> {
    let mut rom = vec![0u8; banks * 0x4000];
    rom[0x147] = 0x03;
    rom[0x148] = match banks {
        4 => 0x01,
        8 => 0x02,
        _ => 0x00,
    };
    rom[0x149] = 0x02;
    for bank in 0..banks {
        rom[bank * 0x4000 + 0x10] = bank as u8;
    }
    rom
}

#[test]
fn mbc1_switches_rom_banks() {
    let mut cart = load(&mbc1_rom(8)).unwrap();
    assert!(matches!(cart, AnyCartridge::Mbc1(_)));
    assert_eq!(cart.read(Address(0x4010)), 1);
    cart.write(Address(0x2000), 5);
    assert_eq!(cart.read(Address(0x4010)), 5);
    cart.write(Address(0x2000), 0);
    assert_eq!(cart.read(Address(0x4010)), 1);
    assert_eq!(cart.read(Address(0x0010)), 0);
}

#[test]
fn mbc1_ram_reads_back_when_enabled() {
    let mut cart = load(&mbc1_rom(4)).unwrap();
    cart.write(Address(0xA000), 0x12);
    assert_eq!(cart.read(Address(0xA000)), 0xFF);
    cart.write(Address(0x0000), 0x0A);
    cart.write(Address(0xA000), 0x12);
    assert_eq!(cart.read(Address(0xA000)), 0x12);
    assert_eq!(cart.ram()[0], 0x12);
}

#[test]
fn ram_is_loaded_only_with_its_size() {
    let mut cart = load(&mbc1_rom(4)).unwrap();
    assert_eq!(cart.ram().len(), 0x2000);
    assert!(!cart.load_ram(&vec![1u8; 10]));
    assert!(cart.load_ram(&vec![7u8; 0x2000]));
    cart.write(Address(0x0000), 0x0A);
    assert_eq!(cart.read(Address(0xA005)), 7);
}

#[test]
fn cartridge_through_the_bus() {
    let mut cart = load(&mbc1_rom(4)).unwrap();
    let mut gb = GameboyColor::new();
    gb.bus.write::<false, _>(&mut cart, Address(0x0000), 0x0A);
    gb.bus.write::<false, _>(&mut cart, Address(0xB000), 0x66);
    assert_eq!(gb.bus.read::<false, _>(&cart, Address(0xB000)), 0x66);
}

#[test]
fn mbc5_and_mbc3_are_recognised() {
    let mut rom = vec![0u8; 0x8000];
    rom[0x147] = 0x19;
    assert!(matches!(load(&rom), Ok(AnyCartridge::Mbc5(_))));
    rom[0x147] = 0x13;
    assert!(matches!(load(&rom), Ok(AnyCartridge::Mbc3(_))));
}

#[test]
fn color_flag_in_header() {
    let mut rom = vec![0u8; 0x8000];
    assert!(!load(&rom).unwrap().color());
    rom[0x143] = 0xC0;
    assert!(load(&rom).unwrap().color());
}

use gameboy_core::emulator::{control_for_key, ApplicationUpdate, DataType, Emulator, Key};
use gameboy_core::Controls;
use gameboy_core::{load, CartridgeError, Cartridge};

#[test]
fn emulator_runs_up_to_its_budget() {
    let mut cart = load(&vec![0u8; 0x8000]).unwrap();
    let mut e = Emulator::new(false);
    e.gameboy.reset(&cart);
    let r = e.update(&mut cart, Some(100), None);
    assert!(matches!(r, ApplicationUpdate::Continue));
    assert!(e.gameboy.cpu.registers.pc > 0x100 + 20);
}

#[test]
fn emulator_waits_until_given_time() {
    let mut cart = load(&vec![0u8; 0x8000]).unwrap();
    let mut e = Emulator::new(false);
    let now = std::time::Instant::now();
    let r = e.update(&mut cart, Some(8), Some(now));
    assert!(matches!(r, ApplicationUpdate::WaitUntil(t) if t == now));
}

#[test]
fn emulator_renders_a_frame() {
    let mut cart = load(&vec![0u8; 0x8000]).unwrap();
    let mut e = Emulator::new(false);
    let r = e.update(&mut cart, None, None);
    assert!(matches!(r, ApplicationUpdate::Render));
}

#[test]
fn emulator_exits_on_illegal_opcode() {
    let mut rom = vec![0u8; 0x8000];
    rom[0x100] = 0xDB;
    let mut cart = load(&rom).unwrap();
    let mut e = Emulator::new(false);
    e.gameboy.reset(&cart);
    assert!(matches!(e.update(&mut cart, Some(100), None), ApplicationUpdate::Exit));
}

#[test]
fn held_debugger_runs_nothing() {
    let mut cart = load(&vec![0u8; 0x8000]).unwrap();
    let mut e = Emulator::new(true);
    e.gameboy.reset(&cart);
    let r = e.update(&mut cart, None, None);
    assert!(matches!(r, ApplicationUpdate::Continue));
    assert_eq!(e.gameboy.cpu.registers.pc, 0x100);
    assert!(e.gameboy.bus.serial.is_connected());
}

#[test]
fn opening_a_rom() {
    let mut e = Emulator::new(false);
    assert!(matches!(e.open_rom(&[0u8; 16]), Err(CartridgeError::NoHeader)));
    let cart = e.open_rom(&vec![0u8; 0x8000]).unwrap();
    assert_eq!(cart.rom().len(), 0x8000);
    assert_eq!(e.gameboy.cpu.registers.pc, 0x100);
}

#[test]
fn opening_ram_of_the_wrong_size_is_refused() {
    let mut rom = vec![0u8; 0x8000];
    rom[0x147] = 0x03;
    rom[0x149] = 0x02;
    let mut cart = load(&rom).unwrap();
    let mut e = Emulator::new(false);
    assert!(!e.open_ram(&mut cart, &[1, 2, 3]));
    assert!(e.open_ram(&mut cart, &vec![5u8; 0x2000]));
    assert_eq!(cart.ram()[100], 5);
}

#[test]
fn file_kinds() {
    assert_eq!(DataType::Rom.filter_name(), "Gameboy ROM");
    assert_eq!(DataType::Ram.filter_name(), "Gameboy RAM Save");
    assert_eq!(DataType::Rom.extensions(), vec!["gb", "gbc"]);
    assert_eq!(DataType::Ram.extensions(), vec!["rsav"]);
}

#[test]
fn keys_map_to_buttons() {
    assert_eq!(control_for_key(Key::ArrowUp), Some(Controls::Up));
    assert_eq!(control_for_key(Key::ArrowLeft), Some(Controls::Left));
    assert_eq!(control_for_key(Key::Character('a')), Some(Controls::Start));
    assert_eq!(control_for_key(Key::Character('s')), Some(Controls::Select));
    assert_eq!(control_for_key(Key::Character('z')), Some(Controls::A));
    assert_eq!(control_for_key(Key::Character('x')), Some(Controls::B));
    assert_eq!(control_for_key(Key::Character('q')), None);
    assert_eq!(control_for_key(Key::Other), None);
}

#[test]
fn frame_as_rgba() {
    let e = Emulator::new(false);
    let rgba = e.gameboy.frame_rgba();
    assert_eq!(rgba.len(), 4 * 160 * 144);
    assert!(rgba.chunks(4).all(|p| p[3] == 0xFF));
}

#[test]
fn resampler_carries_the_remainder() {
    let mut r = gameboy_core::resample::Resampler::new(48000);
    // 4194304 T-cycles per second: 87.38 T-cycles per frame at 48 kHz.
    assert_eq!(r.frames(87), 0);
    assert_eq!(r.frames(1), 1);
    assert_eq!(r.counter, 88 * 48000 - 4194304);
    assert_eq!(r.frames(4194304), 48000);
}

use gameboy_core::cpu::{CycleExecution, ExecutionType};
use gameboy_core::{load, Address, AnyCartridge, Controls, Cycles, GameboyColor};

fn plain_cart() -> AnyCartridge {
    load(&vec![0u8; 0x8000]).unwrap()
}

fn cycles(n: usize) -> CycleExecution {
    CycleExecution { execution: ExecutionType::Opcode(Address(0)), cycles: Cycles(n) }
}

#[test]
fn wram_reads_back_what_was_written() {
    let mut cart = plain_cart();
    let mut gb = GameboyColor::new();
    gb.bus.write::<false, _>(&mut cart, Address(0xC123), 0x77);
    assert_eq!(gb.bus.read::<false, _>(&cart, Address(0xC123)), 0x77);
    assert_eq!(gb.bus.read::<false, _>(&cart, Address(0xE123)), 0x77);
    gb.bus.write::<false, _>(&mut cart, Address(0xF000), 0x99);
    assert_eq!(gb.bus.read::<false, _>(&cart, Address(0xD000)), 0x99);
}

#[test]
fn hram_reads_back_during_dma() {
    let mut cart = plain_cart();
    let mut gb = GameboyColor::new();
    gb.bus.write::<false, _>(&mut cart, Address(0xFF46), 0xC0);
    assert!(gb.bus.dma.is_active());
    gb.bus.write::<false, _>(&mut cart, Address(0xFF90), 0x5A);
    assert_eq!(gb.bus.read::<false, _>(&cart, Address(0xFF90)), 0x5A);
    assert_eq!(gb.bus.read::<false, _>(&cart, Address(0xC000)), 0xFF);
}

#[test]
fn word_is_little_endian() {
    let mut cart = plain_cart();
    let mut gb = GameboyColor::new();
    gb.bus.write_word(&mut cart, Address(0xC010), 0xBEEF);
    assert_eq!(gb.bus.read::<false, _>(&cart, Address(0xC010)), 0xEF);
    assert_eq!(gb.bus.read::<false, _>(&cart, Address(0xC011)), 0xBE);
    assert_eq!(gb.bus.read_word::<false, _>(&cart, Address(0xC010)), 0xBEEF);
}

#[test]
fn oam_dma_copies_a_page_and_ends() {
    let mut cart = plain_cart();
    let mut gb = GameboyColor::new();
    for i in 0..160u16 {
        gb.bus.write::<false, _>(&mut cart, Address(0xC100 + i), (i as u8).wrapping_mul(3));
    }
    gb.bus.write::<false, _>(&mut cart, Address(0xFF46), 0xC1);
    assert_eq!(gb.bus.read::<false, _>(&cart, Address(0xFF46)), 0xFF);
    assert_eq!(gb.bus.read::<true, _>(&cart, Address(0xFF46)), 0xC1);
    gb.bus.cycle_dma(&Cycles(100), &cart);
    assert!(gb.bus.dma.is_active());
    gb.bus.cycle_dma(&Cycles(100), &cart);
    assert!(!gb.bus.dma.is_active());
    assert_eq!(gb.bus.read::<false, _>(&cart, Address(0xFF46)), 0xC1);
    for i in 0..160usize {
        assert_eq!(gb.bus.ppu.voam.read(i), (i as u8).wrapping_mul(3));
    }
}

#[test]
fn timer_counts_and_requests_interrupt() {
    let mut cart = plain_cart();
    let mut gb = GameboyColor::new();
    gb.bus.write::<false, _>(&mut cart, Address(0xFF06), 0x20);
    gb.bus.write::<false, _>(&mut cart, Address(0xFF05), 0xFE);
    gb.bus.write::<false, _>(&mut cart, Address(0xFF07), 0x05);
    gb.bus.cycle(&cart, &cycles(16));
    assert_eq!(gb.bus.read::<false, _>(&cart, Address(0xFF05)), 0xFF);
    assert_eq!(gb.bus.interrupts.i & 0x04, 0);
    gb.bus.cycle(&cart, &cycles(16));
    assert_eq!(gb.bus.read::<false, _>(&cart, Address(0xFF05)), 0x20);
    assert_eq!(gb.bus.interrupts.i & 0x04, 0x04);
}

#[test]
fn divider_counts_and_resets() {
    let mut cart = plain_cart();
    let mut gb = GameboyColor::new();
    gb.bus.cycle(&cart, &cycles(512));
    assert_eq!(gb.bus.read::<false, _>(&cart, Address(0xFF04)), 2);
    gb.bus.write::<false, _>(&mut cart, Address(0xFF04), 0x33);
    assert_eq!(gb.bus.read::<false, _>(&cart, Address(0xFF04)), 0);
}

#[test]
fn serial_byte_is_sent_after_transfer() {
    let mut cart = plain_cart();
    let mut gb = GameboyColor::new();
    gb.bus.set_serial_callback(true);
    gb.bus.write::<false, _>(&mut cart, Address(0xFF01), 0x41);
    gb.bus.write::<false, _>(&mut cart, Address(0xFF02), 0x81);
    gb.bus.cycle(&cart, &cycles(4000));
    assert!(gb.bus.serial.take_output().is_empty());
    gb.bus.cycle(&cart, &cycles(100));
    assert_eq!(gb.bus.serial.take_output(), vec![0x41]);
    assert_eq!(gb.bus.interrupts.i & 0x08, 0x08);
    assert_eq!(gb.bus.read::<false, _>(&cart, Address(0xFF02)) & 0x80, 0);
}

#[test]
fn joypad_reports_pressed_buttons() {
    let mut cart = plain_cart();
    let mut gb = GameboyColor::new();
    gb.update_input(Controls::A, true);
    gb.bus.write::<false, _>(&mut cart, Address(0xFF00), 0x10);
    assert_eq!(gb.bus.read::<false, _>(&cart, Address(0xFF00)) & 0x01, 0);
    gb.update_input(Controls::A, false);
    assert_eq!(gb.bus.read::<false, _>(&cart, Address(0xFF00)) & 0x01, 1);
    assert_eq!(gb.bus.interrupts.i & 0x10, 0x10);
}

#[test]
fn color_cartridge_switches_colour_mode() {
    let mut rom = vec![0u8; 0x8000];
    rom[0x143] = 0x80;
    let cart = load(&rom).unwrap();
    let mut gb = GameboyColor::new();
    gb.reset(&cart);
    assert!(gb.bus.cgb.enabled());
    gb.reset(&plain_cart());
    assert!(!gb.bus.cgb.enabled());
}

#[test]
fn interrupt_enable_register_reads_back() {
    let mut cart = plain_cart();
    let mut gb = GameboyColor::new();
    gb.bus.write::<false, _>(&mut cart, Address(0xFFFF), 0x1F);
    assert_eq!(gb.bus.read::<false, _>(&cart, Address(0xFFFF)), 0x1F);
    gb.bus.write::<false, _>(&mut cart, Address(0xFF0F), 0xFF);
    assert_eq!(gb.bus.read::<false, _>(&cart, Address(0xFF0F)), 0x1F);
}

#[test]
fn reset_keeps_the_serial_consumer() {
    let mut gb = GameboyColor::new();
    gb.bus.set_serial_callback(true);
    gb.bus.reset();
    assert!(gb.bus.serial.is_connected());
}

#[test]
fn frame_completes() {
    let mut cart = plain_cart();
    let mut gb = GameboyColor::new();
    let mut rendered = false;
    for _ in 0..100000 {
        if gb.cycle(&mut cart).render {
            rendered = true;
            break;
        }
    }
    assert!(rendered);
    assert_eq!(gb.framebuffer().len(), 160 * 144);
}

#[test]
fn hblank_transfer_copies_one_block_per_step() {
    let mut cart = plain_cart();
    let mut gb = GameboyColor::new();
    for i in 0..0x20u16 {
        gb.bus.write::<false, _>(&mut cart, Address(0xC000 + i), i as u8 + 1);
    }
    gb.bus.cdma.transfer = Some(gameboy_core::bus::cdma::Transfer {
        source: 0xC000,
        destination: 0x8000,
        index: 0,
        length: 0x20,
        hdma: true,
    });
    gb.bus.ppu.regs.stat = 0x80;
    assert_eq!(gb.bus.ppu.mode(), 0);
    let r = gb.bus.cdma_cycle(&cycles(4), &cart);
    assert_eq!(r, Cycles(32));
    assert_eq!(gb.bus.cdma.transfer.map(|t| t.index), Some(0x10));
    assert_eq!(gb.bus.ppu.vram.read(0x0F), 0x10);
    assert_eq!(gb.bus.ppu.vram.read(0x10), 0x00);
    let r = gb.bus.cdma_cycle(&cycles(4), &cart);
    assert_eq!(r, Cycles(32));
    assert!(gb.bus.cdma.transfer.is_none());
    assert_eq!(gb.bus.cdma.hdma5, 0xFF);
    assert_eq!(gb.bus.ppu.vram.read(0x1F), 0x20);
}

#[test]
fn vram_bank_select_only_in_colour_mode() {
    let mut cart = plain_cart();
    let mut gb = GameboyColor::new();
    gb.reset(&cart);
    gb.bus.write::<false, _>(&mut cart, Address(0xFF4F), 0x01);
    assert_eq!(gb.bus.read::<false, _>(&cart, Address(0xFF4F)), 0xFE);

    let mut rom = vec![0u8; 0x8000];
    rom[0x143] = 0x80;
    let mut colour = load(&rom).unwrap();
    let mut gb = GameboyColor::new();
    gb.reset(&colour);
    gb.bus.write::<false, _>(&mut colour, Address(0xFF4F), 0x01);
    assert_eq!(gb.bus.read::<false, _>(&colour, Address(0xFF4F)), 0xFF);
}

#[test]
fn sound_power_off_resets_channel_registers() {
    let mut cart = plain_cart();
    let mut gb = GameboyColor::new();
    gb.bus.write::<false, _>(&mut cart, Address(0xFF26), 0x80);
    gb.bus.write::<false, _>(&mut cart, Address(0xFF17), 0xF3);
    gb.bus.write::<false, _>(&mut cart, Address(0xFF30), 0x5A);
    assert_eq!(gb.bus.read::<false, _>(&cart, Address(0xFF17)), 0xF3);
    gb.bus.write::<false, _>(&mut cart, Address(0xFF26), 0x00);
    gb.bus.write::<false, _>(&mut cart, Address(0xFF26), 0x80);
    assert_eq!(gb.bus.read::<false, _>(&cart, Address(0xFF17)), 0x00);
    assert_eq!(gb.bus.read::<false, _>(&cart, Address(0xFF30)), 0x5A);
}

#[test]
fn ppu_lines_stay_within_the_frame() {
    let mut gb = GameboyColor::new();
    let cgb = gb.bus.cgb;
    let mut flags = 0u8;
    for _ in 0..50_000 {
        gb.bus.ppu.cycle(&mut flags, &cgb, &Cycles(24));
        let ly = gb.bus.ppu.ly();
        assert!(ly <= 153);
        assert!(gb.bus.ppu.mode() <= 3);
        if gb.bus.ppu.mode() != 1 {
            assert!(ly < 144);
        }
    }
}

#[test]
fn echo_ram_mirrors_work_ram_across_other_writes() {
    let mut cart = plain_cart();
    let mut gb = GameboyColor::new();
    gb.bus.write::<false, _>(&mut cart, Address(0xE234), 0x42);
    gb.bus.write::<false, _>(&mut cart, Address(0xC235), 0x17);
    gb.bus.write::<false, _>(&mut cart, Address(0xFF90), 0x99);
    assert_eq!(gb.bus.read::<false, _>(&cart, Address(0xC234)), 0x42);
    assert_eq!(gb.bus.read::<false, _>(&cart, Address(0xE234)), 0x42);
}

#[test]
fn palette_colour_reads_back() {
    let mut p = gameboy_core::bus::ppu::palette::Palette::new();
    p.write(0, 0x05);
    p.write(1, 0xD7);
    assert_eq!(p.read(1), 0x57);
    assert_eq!(p.read(0), 0x45);
    p.write(0, 0x04);
    p.write(1, 0xD7);
    assert_eq!(p.read(1), 0xD7);
    p.write(0, 0xBF);
    p.write(1, 0x12);
    assert_eq!(p.read(0), 0xC0);
}

#[test]
fn noise_seven_bit_mode_copies_feedback_into_bit_6() {
    let mut n = gameboy_core::bus::apu::components::Noise::new();
    n.write(0x08);
    for _ in 0..100 {
        n.step(8);
        assert!(n.lfsr < 0x8000);
        assert_eq!((n.lfsr >> 6) & 1, (n.lfsr >> 14) & 1);
    }
    assert_eq!(n.value, 0x08);
}

#[test]
fn length_expires_after_max_minus_value_ticks() {
    let mut l = gameboy_core::bus::apu::components::Length::<64>::new();
    l.write(60);
    let mut expired_at = Vec::new();
    for tick in 1..=10 {
        if l.step(true) {
            expired_at.push(tick);
        }
    }
    assert_eq!(expired_at, vec![4]);
    let before = l.counter;
    assert!(!l.step(false));
    assert_eq!(l.counter, before);
}

#[test]
fn ppu_frame_requests_vblank_and_keeps_flags() {
    let mut gb = GameboyColor::new();
    let cgb = gb.bus.cgb;
    let mut flags = 0x10u8;
    let mut rendered = false;
    for _ in 0..10_000 {
        let before = flags;
        let render = gb.bus.ppu.cycle(&mut flags, &cgb, &Cycles(24));
        assert_eq!(flags & before, before);
        if render {
            assert_eq!(flags & 0x01, 0x01);
            rendered = true;
        }
    }
    assert!(rendered);
}

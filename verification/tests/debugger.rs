use gameboy_core::bus::serial::SerialState;
use gameboy_core::cpu::{CycleExecution, ExecutionType};
use gameboy_core::debugger::{
    parse_radix, read_address, BreakpointView, Debugger, HistoryView, MemoryView, SerialView,
};
use gameboy_core::{load, Address, Cycles, GameboyColor};

fn exec(kind: ExecutionType) -> CycleExecution {
    CycleExecution { execution: kind, cycles: Cycles(4) }
}

#[test]
fn addresses_in_hex_and_decimal() {
    assert_eq!(read_address("0x1F"), Some(0x1F));
    assert_eq!(read_address("0xffFF"), Some(0xFFFF));
    assert_eq!(read_address("42"), Some(42));
    assert_eq!(read_address("+7"), Some(7));
    assert_eq!(read_address("65535"), Some(65535));
}

#[test]
fn text_that_is_no_address() {
    assert_eq!(read_address(""), None);
    assert_eq!(read_address("0x"), None);
    assert_eq!(read_address("+"), None);
    assert_eq!(read_address("abc"), None);
    assert_eq!(read_address("65536"), None);
    assert_eq!(read_address("0x10000"), None);
    assert_eq!(read_address("-1"), None);
    assert_eq!(read_address(" 1"), None);
    assert_eq!(read_address("0X10"), None);
}

#[test]
fn radix_parsing_matches_std() {
    for text in ["0", "+0", "00012", "255", "256", "ff", "FF", "z", "1_0", "", "+", "18446744073709551615"] {
        for radix in [2u32, 10, 16, 36] {
            let ours = parse_radix(text.as_bytes(), radix, 255);
            let std = u8::from_str_radix(text, radix).ok().map(u64::from);
            assert_eq!(ours, std, "{text} in base {radix}");
        }
    }
}

#[test]
fn history_folds_runs_and_is_bounded() {
    let mut h = HistoryView::new();
    h.on_cycle(&exec(ExecutionType::Halt));
    h.on_cycle(&exec(ExecutionType::Halt));
    h.on_cycle(&exec(ExecutionType::Opcode(Address(1))));
    assert_eq!(h.history.len(), 2);
    assert_eq!(h.history[0].count, 2);
    assert_eq!(h.history[1].count, 1);
    for i in 0..1500u16 {
        h.on_cycle(&exec(ExecutionType::Opcode(Address(i + 2))));
    }
    assert_eq!(h.history.len(), 1000);
    assert_eq!(h.history[999].kind, ExecutionType::Opcode(Address(1501)));
}

#[test]
fn breakpoint_stops_once_then_steps_on() {
    let cart = load(&vec![0u8; 0x8000]).unwrap();
    let mut gb = GameboyColor::new();
    gb.reset(&cart);
    let mut b = BreakpointView::new();
    b.string = String::from("0x100");
    b.add();
    assert_eq!(b.list.get(&0x100), Some(&true));
    assert!(b.string.is_empty());
    let mut step = true;
    assert!(!b.should_step(&mut step, &gb));
    assert!(!step);
    assert!(!b.should_step(&mut step, &gb));
    step = true;
    assert!(b.should_step(&mut step, &gb));
    b.click(0x100);
    assert_eq!(b.list.get(&0x100), Some(&false));
    assert!(b.should_step(&mut step, &gb));
    b.toggle_delete_mode();
    b.click(0x100);
    assert!(b.list.is_empty());
}

#[test]
fn breakpoint_text_that_is_no_address_stays() {
    let mut b = BreakpointView::new();
    b.string = String::from("nope");
    b.add();
    assert!(b.list.is_empty());
    assert_eq!(b.string, "nope");
}

#[test]
fn serial_view_collects_sent_bytes() {
    let mut view = SerialView::new();
    let mut port = SerialState::new();
    port.set_output(vec![1, 2]);
    view.on_cycle(&mut port);
    assert!(!view.is_connected());
    view.create_serial_callback();
    assert!(view.is_connected());
    view.on_cycle(&mut port);
    assert_eq!(view.connection.as_ref().unwrap(), &vec![1, 2]);
    view.reset();
    assert!(view.connection.as_ref().unwrap().is_empty());
}

#[test]
fn memory_view_takes_typed_values() {
    let mut m = MemoryView::new();
    assert_eq!(m.start(0x150), 0x150);
    m.addr_text = String::from("0xC000");
    m.set_address();
    assert_eq!(m.start(0x150), 0xC000);
    m.size_text = String::from("32");
    m.set_size();
    assert_eq!(m.size, 32);
    m.size_text = String::from("x");
    m.set_size();
    assert_eq!(m.size, 32);
}

#[test]
fn debugger_steps_and_runs() {
    let cart = load(&vec![0u8; 0x8000]).unwrap();
    let mut gb = GameboyColor::new();
    gb.reset(&cart);
    let mut d = Debugger::new();
    assert!(!d.should_step(&gb));
    d.press_step();
    assert!(d.should_step(&gb));
    assert!(!d.should_step(&gb));
    d.press_run();
    assert!(d.run && d.step);
    assert!(d.should_step(&gb));
    d.press_run();
    assert!(!d.run);
    d.new_cartridge(&cart);
    assert!(!d.run && !d.step);
}

#[test]
fn debugger_ignores_waiting_cycles() {
    let mut d = Debugger::new();
    d.create_serial_callback();
    let mut port = SerialState::new();
    port.set_output(vec![9]);
    d.on_cycle(&exec(ExecutionType::Halt), &mut port);
    assert!(d.history.history.is_empty());
    assert!(d.serial.connection.as_ref().unwrap().is_empty());
    d.on_cycle(&exec(ExecutionType::Opcode(Address(0))), &mut port);
    assert_eq!(d.history.history.len(), 1);
    assert_eq!(d.serial.connection.as_ref().unwrap(), &vec![9]);
}

#[test]
fn serial_bytes_arrive_once_in_order() {
    let mut view = SerialView::new();
    view.create_serial_callback();
    let mut port = SerialState::new();
    port.set_output(Vec::new());
    let mut flags = 0u8;
    for byte in [0x41u8, 0x42, 0x43] {
        port.write(&Address(0xFF01), byte);
        port.write(&Address(0xFF02), 0x81);
        port.cycle(&mut flags, &Cycles(4096));
        view.on_cycle(&mut port);
        view.on_cycle(&mut port);
    }
    assert_eq!(view.connection.as_ref().unwrap(), &vec![0x41, 0x42, 0x43]);
    assert_eq!(flags & 0x08, 0x08);
}

use gameboy_core::cpu::registers::{DReg, Reg, Registers};
use gameboy_core::cpu::{BusError, CycleError, CycleExecution, ExecutionType, Opcode, OpcodeError};
use gameboy_core::{load, Address, AnyCartridge, Cycles, GameboyColor};

fn rom_with(program: &[u8], at: usize) -> Vec<u8> {
    let mut rom = vec![0u8; 0x8000];
    rom[at..at + program.len()].copy_from_slice(program);
    rom
}

fn machine(program: &[u8]) -> (GameboyColor, AnyCartridge) {
    let cart = load(&rom_with(program, 0x100)).unwrap();
    let mut gb = GameboyColor::new();
    gb.reset(&cart);
    (gb, cart)
}

fn step(gb: &mut GameboyColor, cart: &mut AnyCartridge) -> Result<CycleExecution, CycleError> {
    gb.cycle(cart).cpu
}

#[test]
fn nop_advances_pc() {
    let (mut gb, mut cart) = machine(&[0x00]);
    let r = step(&mut gb, &mut cart);
    assert_eq!(
        r,
        Ok(CycleExecution { execution: ExecutionType::Opcode(Address(0x100)), cycles: Cycles(4) })
    );
    assert_eq!(gb.cpu.registers.pc, 0x101);
}

#[test]
fn load_immediate_into_a() {
    let (mut gb, mut cart) = machine(&[0x3E, 0x42]);
    let r = step(&mut gb, &mut cart).unwrap();
    assert_eq!(r.cycles, Cycles(8));
    assert_eq!(gb.cpu.registers.get(Reg::A), 0x42);
    assert_eq!(gb.cpu.registers.pc, 0x102);
}

#[test]
fn add_sets_zero_half_carry_and_carry() {
    let (mut gb, mut cart) = machine(&[0x3E, 0xFF, 0xC6, 0x01]);
    step(&mut gb, &mut cart).unwrap();
    step(&mut gb, &mut cart).unwrap();
    assert_eq!(gb.cpu.registers.get(Reg::A), 0x00);
    assert_eq!(gb.cpu.registers.get(Reg::F), 0xB0);
}

#[test]
fn sub_borrows() {
    let (mut gb, mut cart) = machine(&[0x3E, 0x10, 0xD6, 0x20]);
    step(&mut gb, &mut cart).unwrap();
    step(&mut gb, &mut cart).unwrap();
    assert_eq!(gb.cpu.registers.get(Reg::A), 0xF0);
    assert_eq!(gb.cpu.registers.get(Reg::F), 0x50);
}

#[test]
fn compare_equal_sets_zero_and_keeps_a() {
    let (mut gb, mut cart) = machine(&[0x3E, 0x33, 0xFE, 0x33]);
    step(&mut gb, &mut cart).unwrap();
    step(&mut gb, &mut cart).unwrap();
    assert_eq!(gb.cpu.registers.get(Reg::A), 0x33);
    assert_eq!(gb.cpu.registers.get(Reg::F), 0xC0);
}

#[test]
fn xor_a_clears_a() {
    let (mut gb, mut cart) = machine(&[0x3E, 0x12, 0xAF]);
    step(&mut gb, &mut cart).unwrap();
    let r = step(&mut gb, &mut cart).unwrap();
    assert_eq!(r.cycles, Cycles(4));
    assert_eq!(gb.cpu.registers.get(Reg::A), 0x00);
    assert_eq!(gb.cpu.registers.get(Reg::F), 0x80);
}

#[test]
fn add_then_sub_restores_a() {
    let (mut gb, mut cart) = machine(&[0x3E, 0xC8, 0xC6, 0x5A, 0xD6, 0x5A]);
    for _ in 0..3 {
        step(&mut gb, &mut cart).unwrap();
    }
    assert_eq!(gb.cpu.registers.get(Reg::A), 0xC8);
}

#[test]
fn inc_and_dec_flags() {
    let (mut gb, mut cart) = machine(&[0x06, 0x0F, 0x04, 0x05]);
    step(&mut gb, &mut cart).unwrap();
    step(&mut gb, &mut cart).unwrap();
    assert_eq!(gb.cpu.registers.get(Reg::B), 0x10);
    assert_eq!(gb.cpu.registers.get(Reg::F), 0x20);
    step(&mut gb, &mut cart).unwrap();
    assert_eq!(gb.cpu.registers.get(Reg::B), 0x0F);
    assert_eq!(gb.cpu.registers.get(Reg::F), 0x60);
}

#[test]
fn daa_after_bcd_addition() {
    let (mut gb, mut cart) = machine(&[0x3E, 0x45, 0xC6, 0x38, 0x27]);
    for _ in 0..3 {
        step(&mut gb, &mut cart).unwrap();
    }
    assert_eq!(gb.cpu.registers.get(Reg::A), 0x83);
    assert_eq!(gb.cpu.registers.get(Reg::F), 0x00);
}

#[test]
fn rlca_then_rrca_restores_a() {
    let (mut gb, mut cart) = machine(&[0x3E, 0x85, 0x07, 0x0F]);
    step(&mut gb, &mut cart).unwrap();
    step(&mut gb, &mut cart).unwrap();
    assert_eq!(gb.cpu.registers.get(Reg::A), 0x0B);
    assert_eq!(gb.cpu.registers.get(Reg::F), 0x10);
    step(&mut gb, &mut cart).unwrap();
    assert_eq!(gb.cpu.registers.get(Reg::A), 0x85);
}

#[test]
fn push_then_pop_moves_a_pair() {
    let (mut gb, mut cart) = machine(&[0x01, 0x34, 0x12, 0xC5, 0xD1]);
    step(&mut gb, &mut cart).unwrap();
    let push = step(&mut gb, &mut cart).unwrap();
    assert_eq!(push.cycles, Cycles(16));
    assert_eq!(gb.cpu.registers.sp, 0xFFFC);
    let pop = step(&mut gb, &mut cart).unwrap();
    assert_eq!(pop.cycles, Cycles(12));
    assert_eq!(gb.cpu.registers.get16(DReg::DE), 0x1234);
    assert_eq!(gb.cpu.registers.sp, 0xFFFE);
}

#[test]
fn call_then_ret_returns() {
    let mut rom = rom_with(&[0xCD, 0x10, 0x01], 0x100);
    rom[0x110] = 0xC9;
    let mut cart = load(&rom).unwrap();
    let mut gb = GameboyColor::new();
    gb.reset(&cart);
    let call = gb.cycle(&mut cart).cpu.unwrap();
    assert_eq!(call.cycles, Cycles(24));
    assert_eq!(gb.cpu.registers.pc, 0x110);
    assert_eq!(gb.cpu.registers.sp, 0xFFFC);
    let ret = gb.cycle(&mut cart).cpu.unwrap();
    assert_eq!(ret.cycles, Cycles(16));
    assert_eq!(gb.cpu.registers.pc, 0x103);
    assert_eq!(gb.cpu.registers.sp, 0xFFFE);
}

#[test]
fn relative_jump_backwards() {
    let (mut gb, mut cart) = machine(&[0x18, 0xFE]);
    let r = step(&mut gb, &mut cart).unwrap();
    assert_eq!(r.cycles, Cycles(12));
    assert_eq!(gb.cpu.registers.pc, 0x100);
}

#[test]
fn conditional_relative_jump_not_taken() {
    let (mut gb, mut cart) = machine(&[0x20, 0x10]);
    gb.cpu.registers.set(Reg::F, 0x80);
    let r = step(&mut gb, &mut cart).unwrap();
    assert_eq!(r.cycles, Cycles(8));
    assert_eq!(gb.cpu.registers.pc, 0x102);
}

#[test]
fn absolute_jump() {
    let (mut gb, mut cart) = machine(&[0xC3, 0x50, 0x01]);
    let r = step(&mut gb, &mut cart).unwrap();
    assert_eq!(r.cycles, Cycles(16));
    assert_eq!(gb.cpu.registers.pc, 0x150);
}

#[test]
fn illegal_opcode_fails() {
    let (mut gb, mut cart) = machine(&[0xD3]);
    let r = step(&mut gb, &mut cart);
    assert_eq!(r, Err(CycleError::Opcode(Address(0x100), Opcode(0xD3), OpcodeError::Illegal)));
}

#[test]
fn pop_past_the_top_overflows() {
    let (mut gb, mut cart) = machine(&[0xC1]);
    let r = step(&mut gb, &mut cart);
    assert_eq!(
        r,
        Err(CycleError::Opcode(
            Address(0x100),
            Opcode(0xC1),
            OpcodeError::Bus(BusError::Overflow)
        ))
    );
    assert_eq!(gb.cpu.registers.sp, 0xFFFE);
}

#[test]
fn cb_swap_and_bit() {
    let (mut gb, mut cart) = machine(&[0x3E, 0xF1, 0xCB, 0x37, 0xCB, 0x7F]);
    step(&mut gb, &mut cart).unwrap();
    let swap = step(&mut gb, &mut cart).unwrap();
    assert_eq!(swap.cycles, Cycles(8));
    assert_eq!(gb.cpu.registers.get(Reg::A), 0x1F);
    assert_eq!(gb.cpu.registers.get(Reg::F), 0x00);
    step(&mut gb, &mut cart).unwrap();
    assert_eq!(gb.cpu.registers.get(Reg::F), 0xA0);
}

#[test]
fn halt_waits() {
    let (mut gb, mut cart) = machine(&[0x76, 0x00]);
    step(&mut gb, &mut cart).unwrap();
    let r = step(&mut gb, &mut cart);
    assert_eq!(r, Ok(CycleExecution { execution: ExecutionType::Halt, cycles: Cycles(4) }));
    assert!(gb.bus.interrupts.halted());
}

#[test]
fn stop_without_speed_switch_fails() {
    let (mut gb, mut cart) = machine(&[0x10, 0x00]);
    let r = step(&mut gb, &mut cart);
    assert_eq!(r, Err(CycleError::Opcode(Address(0x100), Opcode(0x10), OpcodeError::Stop)));
    assert!(!gb.bus.cgb.double_speed());
}

#[test]
fn stop_with_prepared_speed_switch_switches() {
    // LD A,1; LDH (KEY1),A; STOP
    let mut rom = rom_with(&[0x3E, 0x01, 0xE0, 0x4D, 0x10, 0x00], 0x100);
    rom[0x143] = 0x80;
    let mut cart = load(&rom).unwrap();
    let mut gb = GameboyColor::new();
    gb.reset(&cart);
    step(&mut gb, &mut cart).unwrap();
    step(&mut gb, &mut cart).unwrap();
    let r = step(&mut gb, &mut cart);
    assert_eq!(
        r,
        Ok(CycleExecution { execution: ExecutionType::Opcode(Address(0x104)), cycles: Cycles(4) })
    );
    assert!(gb.bus.cgb.double_speed());
}

#[test]
fn enabled_interrupt_is_served() {
    // LD A,1; LDH (IE),A; LDH (IF),A; EI; NOP; NOP; NOP
    let (mut gb, mut cart) =
        machine(&[0x3E, 0x01, 0xE0, 0xFF, 0xE0, 0x0F, 0xFB, 0x00, 0x00, 0x00]);
    let mut served = None;
    for _ in 0..10 {
        let r = step(&mut gb, &mut cart).unwrap();
        if let ExecutionType::Interrupt(address) = r.execution {
            served = Some((address, r.cycles));
            break;
        }
    }
    assert_eq!(served, Some((Address(0x40), Cycles(20))));
    assert_eq!(gb.cpu.registers.pc, 0x40);
    assert_eq!(gb.cpu.registers.sp, 0xFFFC);
    assert!(!gb.bus.interrupts.ime());
    assert_eq!(gb.bus.interrupts.i & 0x01, 0);
}

#[test]
fn every_cycle_takes_at_most_24_t_cycles() {
    let (mut gb, mut cart) = machine(&[0xCD, 0x00, 0x02, 0x00, 0x00]);
    for _ in 0..50 {
        if let Ok(r) = step(&mut gb, &mut cart) {
            assert!(r.cycles.t() >= 2 && r.cycles.t() <= 24);
        }
    }
}

#[test]
fn registers_from_single_bytes() {
    let r = Registers::new_single(1, 2, 3, 4, 5, 6, 7, 8, 0x1234, 0x5678);
    assert_eq!(r.get16(DReg::BC), 0x0102);
    assert_eq!(r.get16(DReg::DE), 0x0304);
    assert_eq!(r.get16(DReg::HL), 0x0506);
    assert_eq!(r.get16(DReg::AF), 0x0708);
    assert_eq!(r.get(Reg::C), 2);
    assert_eq!(r.get(Reg::H), 5);
}

#[test]
fn setting_one_half_keeps_the_other() {
    let mut r = Registers::new(0x1122, 0, 0, 0, 0, 0);
    r.set(Reg::B, 0xAB);
    assert_eq!(r.bc, 0xAB22);
    r.set(Reg::C, 0xCD);
    assert_eq!(r.bc, 0xABCD);
    assert_eq!(Registers::default().pc, 0x100);
    assert_eq!(Registers::default().sp, 0xFFFE);
}

#[test]
fn flags_set_and_cleared() {
    let mut r = Registers::new(0, 0, 0, 0x0005, 0, 0);
    r.set_flag(0x80, true);
    r.set_flag(0x10, true);
    assert_eq!(r.get(Reg::F), 0x95);
    assert!(r.flag(0x80));
    r.set_flag(0x80, false);
    assert_eq!(r.get(Reg::F), 0x15);
    assert!(!r.flag(0x40));
}

#[test]
fn operand_fields_name_registers() {
    assert_eq!(Reg::pair(0), Reg::B);
    assert_eq!(Reg::pair(7), Reg::A);
    assert_eq!(DReg::pair1(3), DReg::SP);
    assert_eq!(DReg::pair2(3), DReg::AF);
}

#[test]
fn daa_carries_past_99() {
    let (mut gb, mut cart) = machine(&[0x3E, 0x99, 0xC6, 0x01, 0x27]);
    for _ in 0..3 {
        step(&mut gb, &mut cart).unwrap();
    }
    assert_eq!(gb.cpu.registers.get(Reg::A), 0x00);
    assert_eq!(gb.cpu.registers.get(Reg::F), 0x90);
}

#[test]
fn load_and_store_through_hl_increment() {
    // LD HL,0xC000; LD A,0x5A; LD (HL+),A; LD A,(HL-)
    let (mut gb, mut cart) = machine(&[0x21, 0x00, 0xC0, 0x3E, 0x5A, 0x22, 0x3A]);
    for _ in 0..3 {
        step(&mut gb, &mut cart).unwrap();
    }
    assert_eq!(gb.cpu.registers.hl, 0xC001);
    step(&mut gb, &mut cart).unwrap();
    assert_eq!(gb.cpu.registers.hl, 0xC000);
    assert_eq!(gb.cpu.registers.get(Reg::A), 0x00);
    assert_eq!(gb.bus.read::<false, _>(&cart, Address(0xC000)), 0x5A);
}

#[test]
fn add_sp_signed_offset() {
    // LD SP,0x1000 via LD SP,d16; ADD SP,-2
    let (mut gb, mut cart) = machine(&[0x31, 0x00, 0x10, 0xE8, 0xFE]);
    step(&mut gb, &mut cart).unwrap();
    let r = step(&mut gb, &mut cart).unwrap();
    assert_eq!(r.cycles, Cycles(16));
    assert_eq!(gb.cpu.registers.sp, 0x0FFE);
}

#[test]
fn alu_on_hl_operand_takes_two_cycles() {
    // LD HL,0xC000; ADD A,(HL)
    let (mut gb, mut cart) = machine(&[0x21, 0x00, 0xC0, 0x86]);
    step(&mut gb, &mut cart).unwrap();
    let r = step(&mut gb, &mut cart).unwrap();
    assert_eq!(r.cycles, Cycles(2));
}

#[test]
fn set_flag_takes_any_mask() {
    let mut r = Registers::new_single(1, 2, 3, 4, 5, 6, 7, 0x80, 0x1234, 0x5678);
    r.set_flag(0x13, true);
    assert_eq!(r.get(Reg::F), 0x93);
    r.set_flag(0x81, false);
    assert_eq!(r.get(Reg::F), 0x12);
    assert_eq!(r.get(Reg::A), 7);
}

//! Properties that hold across the operations of the machine.
use vstd::prelude::*;

use crate::bus::dma::LENGTH;
use crate::bus::interrupts::{bit_mask, lowest_bit, InterruptState, Interrupts};
use crate::bus::cgb::Cgb;
use crate::bus::ppu::registers::{PpuRegisters, HBLANK, INTERRUPT_VBLANK, OAM, VBLANK};
use crate::bus::ppu::{run, step, Ppu, Timing};
use crate::bus::apu::components::{lfsr_after, lfsr_next, Length, Noise, Period, Sweep};
use crate::bus::ppu::palette::{slot, Palette};
use crate::bus::serial::{SerialState, TRANSFER_CYCLES};
use crate::bus::ppu::draw::{bg_color, sprite_color_number, use_window, Sprite};
use crate::bus::timer::{ticked, Timer};
use crate::bus::joypad::{Joypad, Select};
use crate::util::Controls;
use crate::bus::ppu::pixel::palette_shade;
use crate::bus::Bus;
use crate::debugger::SerialView;
use crate::cartridge::mbc1::MBC1;
use crate::cartridge::mbc3::MBC3;
use crate::cartridge::mbc5::MBC5;
use crate::cartridge::{byte_or_open_bus, Cartridge};
use crate::cpu::registers::{flag_c, flag_h, flag_n, flag_z, make_f, Reg, Registers};
use crate::cpu::semantics::{
    add8, add_hl, alu, call, cc, daa, dec8, inc8, outcome, performed, push, rd, rd16, ret, shift_carry,
    shift_result, sub8,
    wrap8, Signal, Store,
};

verus! {

broadcast use vstd::array::group_array_axioms;

/// A CPU read of work RAM gives back what the CPU last wrote there, at the address written
/// and at its mirror (`0xE000..=0xFDFF` echoes `0xC000..=0xDDFF`), while no OAM DMA runs.
pub proof fn law_wram_read_back<C: Cartridge>(pre: Bus, post: Bus, pre_cart: C, post_cart: C, a: u16, v: u8)
    requires
        pre.wf(),
        !pre.dma.is_active_spec(),
        0xC000 <= a <= 0xFDFF,
        Bus::written(pre, post, pre_cart, post_cart, false, a, v),
    ensures
        post.read_spec(post_cart, false, a) == v,
        a <= 0xDDFF ==> post.read_spec(post_cart, false, (a + 0x2000) as u16) == v,
        a >= 0xE000 ==> post.read_spec(post_cart, false, (a - 0x2000) as u16) == v,
{
    reveal(Bus::written);
    reveal(Bus::read_spec_with);
}

/// High RAM gives back what was last written there, to the CPU and to DMA alike, even while
/// OAM DMA locks the rest of the bus.
pub proof fn law_hram_read_back<C: Cartridge>(
    pre: Bus,
    post: Bus,
    pre_cart: C,
    post_cart: C,
    dma: bool,
    a: u16,
    v: u8,
    reader: bool,
)
    requires
        pre.wf(),
        0xFF80 <= a <= 0xFFFE,
        Bus::written(pre, post, pre_cart, post_cart, dma, a, v),
    ensures
        post.read_spec(post_cart, reader, a) == v,
{
    reveal(Bus::written);
    reveal(Bus::read_spec_with);
}

/// Whether the two bytes at `a` lie in work RAM or in high RAM.
pub open spec fn plain_ram(a: int) -> bool {
    (0xC000 <= a && a + 1 <= 0xDFFF) || (0xFF80 <= a && a + 1 <= 0xFFFE)
}

/// A word written to RAM by the CPU reads back as the same word.
pub proof fn law_word_read_back<C: Cartridge>(pre: Bus, post: Bus, pre_cart: C, post_cart: C, a: u16, w: u16)
    requires
        pre.wf(),
        !pre.dma.is_active_spec(),
        plain_ram(a as int),
        Bus::word_written(pre, post, pre_cart, post_cart, a, w),
    ensures
        rd16(post, post_cart, a as int) == w,
{
    reveal(Bus::written);
    reveal(Bus::read_spec_with);
    let (mid, mid_cart) = choose|mid: Bus, mid_cart: C|
        #![trigger Bus::written(pre, mid, pre_cart, mid_cart, false, a, (w % 256) as u8)]
        {
            &&& Bus::written(pre, mid, pre_cart, mid_cart, false, a, (w % 256) as u8)
            &&& mid.wf()
            &&& Bus::written(mid, post, mid_cart, post_cart, false, ((a + 1) % 0x10000) as u16, (w / 256) as u8)
        };
    assert(((a + 1) % 0x10000) as u16 == a + 1);
    assert(rd(post, post_cart, a as int) == (w % 256) as u8);
    assert(rd(post, post_cart, a + 1) == (w / 256) as u8);
}

/// What PUSH writes to a stack in RAM is what a POP or RET reads back from the new SP.
pub proof fn law_push_pop<C: Cartridge>(
    r: Registers,
    pre: Bus,
    cart: C,
    value: u16,
    post_regs: Registers,
    post: Bus,
    post_cart: C,
)
    requires
        pre.wf(),
        !pre.dma.is_active_spec(),
        r.sp >= 2,
        plain_ram(r.sp - 2),
        performed(pre, cart, push(r, value, 16), post_regs, post, post_cart),
    ensures
        post_regs.sp == r.sp - 2,
        rd16(post, post_cart, post_regs.sp as int) == value,
{
    law_word_read_back(pre, post, cart, post_cart, (r.sp - 2) as u16, value);
}

/// RET after CALL returns to the instruction after the call, with SP back where it was.
pub proof fn law_call_ret<C: Cartridge>(
    r: Registers,
    pre: Bus,
    cart: C,
    target: u16,
    post_regs: Registers,
    post: Bus,
    post_cart: C,
)
    requires
        pre.wf(),
        !pre.dma.is_active_spec(),
        r.sp >= 2,
        plain_ram(r.sp - 2),
        performed(pre, cart, call(r, target, 24), post_regs, post, post_cart),
    ensures
        post_regs.pc == target,
        ret(post_regs, post, post_cart, 16, Signal::Nothing).regs.pc == r.pc,
        ret(post_regs, post, post_cart, 16, Signal::Nothing).regs.sp == r.sp,
{
    law_word_read_back(pre, post, cart, post_cart, (r.sp - 2) as u16, r.pc);
}

/// Subtracting a value after adding it (and adding after subtracting) leaves A as it was.
#[verifier::rlimit(40)]
pub proof fn law_add_sub_inverse(r: Registers, v: u8)
    ensures
        sub8(add8(r, v, false), v, false).a() == r.a(),
        add8(sub8(r, v, false), v, false).a() == r.a(),
{
    let a = r.a();
    let s: u8 = if a + v < 256 {
        (a + v) as u8
    } else {
        (a + v - 256) as u8
    };
    let d: u8 = if a >= v {
        (a - v) as u8
    } else {
        (a - v + 256) as u8
    };
    assert(crate::cpu::semantics::wrap8(a + v) == s);
    assert(crate::cpu::semantics::wrap8(a - v) == d);
    let r1 = add8(r, v, false);
    let r2 = sub8(r, v, false);
    crate::cpu::registers::lemma_word(s, r1.f());
    crate::cpu::registers::lemma_word(d, r2.f());
    assert(crate::cpu::semantics::wrap8(s - v) == a);
    assert(crate::cpu::semantics::wrap8(d + v) == a);
    crate::cpu::registers::lemma_word(a, sub8(r1, v, false).f());
    crate::cpu::registers::lemma_word(a, add8(r2, v, false).f());
}

/// CP leaves A alone; Z tells whether A equals the operand, C whether A is below it.
pub proof fn law_compare(r: Registers, v: u8)
    ensures
        alu(7, r, v).a() == r.a(),
        flag_z(alu(7, r, v).f()) == (r.a() == v),
        flag_c(alu(7, r, v).f()) == (r.a() < v),
        flag_n(alu(7, r, v).f()),
{
    crate::cpu::registers::lemma_flags_of_make_f(
        crate::cpu::semantics::wrap8(r.a() - v) == 0,
        true,
        r.a() % 16 < v % 16,
        r.a() < v,
        r.f(),
    );
}

/// XOR A clears A and sets Z.
pub proof fn law_xor_self(r: Registers)
    ensures
        alu(5, r, r.a()).a() == 0,
        flag_z(alu(5, r, r.a()).f()),
{
    assert(r.a() ^ r.a() == 0) by (bit_vector);
    crate::cpu::registers::lemma_flags_of_make_f(true, false, false, false, r.f());
}

/// RRC undoes RLC, and SWAP undoes SWAP.
pub proof fn law_rotate_inverse(v: u8, c1: bool, c2: bool)
    ensures
        shift_result(1, shift_result(0, v, c1), c2) == v,
        shift_result(0, shift_result(1, v, c1), c2) == v,
        shift_result(6, shift_result(6, v, c1), c2) == v,
{
}

/// DEC undoes INC.
pub proof fn law_inc_dec(f: u8, v: u8, g: u8)
    ensures
        dec8(g, inc8(f, v).0).0 == v,
        inc8(g, dec8(f, v).0).0 == v,
{
}

/// Setting an 8-bit register changes that register and no other.
pub proof fn law_register_set(regs: Registers, r: Reg, v: u8, other: Reg)
    ensures
        regs.with_reg(r, v).reg(r) == v,
        other != r ==> regs.with_reg(r, v).reg(other) == regs.reg(other),
        regs.with_reg(r, v).sp == regs.sp && regs.with_reg(r, v).pc == regs.pc,
{
}

/// An interrupt is served only when the master enable was set and it is both requested and
/// enabled; the lowest such one wins, its request is cleared, and the master enable drops.
pub proof fn law_interrupt_dispatch(i: Interrupts)
    ensures
        ({
            let (post, state) = i.interrupt_spec();
            state matches InterruptState::Interrupt(address) ==> {
                &&& i.ime.state
                &&& i.pending() != 0
                &&& address.0 == 0x40 + 8 * lowest_bit(i.pending())
                &&& post.i == i.i & !bit_mask(lowest_bit(i.pending()))
                &&& !post.ime.state
            }
        }),
{
}

/// OAM DMA ends once it has run for its 160 bytes.
pub proof fn law_dma_ends<C: Cartridge>(pre: Bus, post: Bus, cart: C, t: int)
    requires
        pre.dma.is_active_spec(),
        t >= LENGTH - pre.dma.clock,
        Bus::dma_stepped(pre, post, cart, t),
    ensures
        !post.dma.is_active_spec(),
{
    reveal(Bus::dma_stepped);
}

/// MBC1 cartridge RAM gives back what was written to it while it is enabled.
pub proof fn law_mbc1_ram_read_back(pre: MBC1, post: MBC1, a: u16, v: u8)
    requires
        0xA000 <= a <= 0xBFFF,
        pre.ram_bank_spec() is Some,
        0 <= pre.ram_index(a) < pre.ram@.len(),
        MBC1::write_spec(pre, post, a, v),
    ensures
        post.read_spec(a) == v,
{
}

/// MBC5 cartridge RAM gives back what was written to it while it is enabled.
pub proof fn law_mbc5_ram_read_back(pre: MBC5, post: MBC5, a: u16, v: u8)
    requires
        0xA000 <= a <= 0xBFFF,
        pre.ram_accessible(),
        0 <= pre.ram_index(a) < pre.ram@.len(),
        MBC5::write_spec(pre, post, a, v),
    ensures
        post.read_spec(a) == v,
{
}

/// Whether a byte holds two decimal digits.
pub open spec fn bcd(x: u8) -> bool {
    x % 16 <= 9 && x / 16 <= 9
}

/// The number that two decimal digits in a byte denote.
pub open spec fn bcd_value(x: u8) -> int {
    (x / 16) * 10 + x % 16
}

/// The byte that holds the two decimal digits of `n` (below 100).
pub open spec fn to_bcd(n: int) -> u8 {
    ((n / 10) * 16 + n % 10) as u8
}

/// The arithmetic of DAA after an addition of two decimal numbers with digits `ah al` and
/// `vh vl`.
proof fn lemma_daa_digits(ah: int, al: int, vh: int, vl: int)
    requires
        0 <= ah <= 9,
        0 <= al <= 9,
        0 <= vh <= 9,
        0 <= vl <= 9,
    ensures
        ({
            let sum = ah * 16 + al + vh * 16 + vl;
            let s = sum % 256;
            let low = al + vl > 15 || s % 16 > 9;
            let high = sum > 255 || s > 0x99;
            let adjust: int = (if high { 0x60int } else { 0 }) + (if low { 6int } else { 0 });
            let n = (ah * 10 + al + vh * 10 + vl) % 100;
            &&& (s + adjust) % 256 == (n / 10) * 16 + n % 10
            &&& high == (ah * 10 + al + vh * 10 + vl >= 100)
        }),
{
    let x = al + vl;
    let h = ah + vh;
    let sum = h * 16 + x;
    assert(ah * 16 + al + vh * 16 + vl == sum);
    assert(ah * 10 + al + vh * 10 + vl == h * 10 + x);
    if x < 10 {
        if h < 10 {
            assert(sum % 256 == sum);
            assert(sum % 16 == x);
            assert((h * 10 + x) % 100 == h * 10 + x);
            assert((h * 10 + x) / 10 == h && (h * 10 + x) % 10 == x);
        } else if h * 16 + x < 256 {
            assert(sum % 256 == sum);
            assert(sum % 16 == x);
            assert((h * 10 + x) % 100 == (h - 10) * 10 + x);
            assert(((h - 10) * 10 + x) / 10 == h - 10 && ((h - 10) * 10 + x) % 10 == x);
            assert((sum + 0x60) % 256 == (h - 10) * 16 + x);
        } else {
            assert(sum % 256 == sum - 256);
            assert((sum - 256) % 16 == x);
            assert((h * 10 + x) % 100 == (h - 10) * 10 + x);
            assert(((h - 10) * 10 + x) / 10 == h - 10 && ((h - 10) * 10 + x) % 10 == x);
            assert((sum - 256 + 0x60) % 256 == (h - 10) * 16 + x);
        }
    } else {
        if h + 1 < 10 {
            assert(sum % 256 == sum);
            assert(sum % 16 == x % 16);
            assert((h * 10 + x) % 100 == (h + 1) * 10 + (x - 10));
            assert(((h + 1) * 10 + (x - 10)) / 10 == h + 1 && ((h + 1) * 10 + (x - 10)) % 10 == x - 10);
            assert((sum + 6) % 256 == (h + 1) * 16 + (x - 10));
        } else if h * 16 + x < 256 {
            assert(sum % 256 == sum);
            assert(sum % 16 == x % 16);
            assert((h * 10 + x) % 100 == (h - 9) * 10 + (x - 10));
            assert(((h - 9) * 10 + (x - 10)) / 10 == h - 9 && ((h - 9) * 10 + (x - 10)) % 10 == x - 10);
            assert((sum + 0x66) % 256 == (h - 9) * 16 + (x - 10));
        } else {
            assert(sum % 256 == sum - 256);
            assert((sum - 256) % 16 == x % 16);
            assert((h * 10 + x) % 100 == (h - 9) * 10 + (x - 10));
            assert(((h - 9) * 10 + (x - 10)) / 10 == h - 9 && ((h - 9) * 10 + (x - 10)) % 10 == x - 10);
            assert((sum - 256 + 0x66) % 256 == (h - 9) * 16 + (x - 10));
        }
    }
}

/// DAA after adding two decimal numbers gives their decimal sum, with the carry set when the
/// sum reaches 100, Z set when the result is zero, H and N clear, and the other registers
/// untouched.
pub proof fn law_daa_after_add(r: Registers, v: u8)
    requires
        bcd(r.a()),
        bcd(v),
    ensures
        daa(add8(r, v, false)).a() == to_bcd((bcd_value(r.a()) + bcd_value(v)) % 100),
        flag_c(daa(add8(r, v, false)).f()) == (bcd_value(r.a()) + bcd_value(v) >= 100),
        flag_z(daa(add8(r, v, false)).f()) == (daa(add8(r, v, false)).a() == 0),
        !flag_h(daa(add8(r, v, false)).f()),
        !flag_n(daa(add8(r, v, false)).f()),
        daa(add8(r, v, false)).bc == r.bc && daa(add8(r, v, false)).de == r.de,
        daa(add8(r, v, false)).hl == r.hl && daa(add8(r, v, false)).sp == r.sp,
        daa(add8(r, v, false)).pc == r.pc,
{
    let a = r.a();
    let s = wrap8(a + v);
    let r1 = add8(r, v, false);
    let half = a % 16 + v % 16 > 15;
    let carry = a + v > 255;
    crate::cpu::registers::lemma_word(s, r1.f());
    crate::cpu::registers::lemma_flags_of_make_f(s == 0, false, half, carry, r.f());
    let f1 = r1.f();
    let low = flag_h(f1) || (!flag_n(f1) && s % 16 > 9);
    let high = flag_c(f1) || (!flag_n(f1) && s > 0x99);
    let adjust: int = (if high { 0x60int } else { 0 }) + (if low { 6int } else { 0 });
    let res = wrap8(s + adjust);
    crate::cpu::registers::lemma_word(res, make_daa_f(res, f1, high));
    crate::cpu::registers::lemma_flags_of_make_f(res == 0, flag_n(f1), false, high, f1);
    lemma_daa_digits((a / 16) as int, (a % 16) as int, (v / 16) as int, (v % 16) as int);
    assert(a == (a / 16) * 16 + a % 16);
    assert(v == (v / 16) * 16 + v % 16);
}

/// The flags that DAA leaves.
pub open spec fn make_daa_f(res: u8, f: u8, high: bool) -> u8 {
    crate::cpu::registers::make_f(res == 0, flag_n(f), false, high, f)
}


/// The line counter is within the frame: LY is at most 153, and below 144 outside VBLANK.
pub open spec fn line_in_frame(regs: PpuRegisters) -> bool {
    &&& regs.ly <= 153
    &&& regs.mode_spec() != VBLANK ==> regs.ly < 144
}

/// Setting LY keeps the mode; entering a mode sets it; a STAT write keeps it.
proof fn lemma_stat_bits(s: u8, m: u8, v: u8)
    by (bit_vector)
    requires
        m <= 3,
    ensures
        (s | 4u8) & 3u8 == s & 3u8,
        (s & !4u8) & 3u8 == s & 3u8,
        ((s & 0xF8u8) | m) & 3u8 == m,
        ((s & 0x07u8) | (v & 0x78u8)) & 3u8 == s & 3u8,
        s & 3u8 <= 3,
{
}

proof fn lemma_step_in_frame(t: Timing, vram: Seq<u8>, voam: Seq<u8>, cgb: Cgb)
    requires
        line_in_frame(t.regs),
        step(t, vram, voam, cgb) is Some,
    ensures
        line_in_frame(step(t, vram, voam, cgb)->0.regs),
{
    let n = step(t, vram, voam, cgb)->0;
    let s = t.regs.stat;
    lemma_stat_bits(s, HBLANK, 0);
    lemma_stat_bits(s, VBLANK, 0);
    lemma_stat_bits(s, OAM, 0);
    lemma_stat_bits(s, 3, 0);
    let (r, f) = t.regs.ly_updated(t.flags, ((t.regs.ly + 1) % 256) as u8);
    lemma_stat_bits(r.stat, HBLANK, 0);
    lemma_stat_bits(r.stat, VBLANK, 0);
    lemma_stat_bits(r.stat, OAM, 0);
    let (r2, f2) = r.ly_updated(f, 0);
    lemma_stat_bits(r2.stat, OAM, 0);
}

proof fn lemma_run_in_frame(t: Timing, vram: Seq<u8>, voam: Seq<u8>, cgb: Cgb)
    requires
        line_in_frame(t.regs),
    ensures
        line_in_frame(run(t, vram, voam, cgb).regs),
    decreases t.clock,
{
    match step(t, vram, voam, cgb) {
        Some(n) => {
            lemma_step_in_frame(t, vram, voam, cgb);
            if n.clock < t.clock && n.clock >= 0 {
                lemma_run_in_frame(n, vram, voam, cgb);
            }
        },
        None => {},
    }
}

/// Running the PPU keeps LY at most 153 (below 144 outside VBLANK) and the mode at most 3.
pub proof fn law_ppu_cycle_keeps_lines(
    pre: Ppu,
    post: Ppu,
    pre_flags: u8,
    post_flags: u8,
    cgb: Cgb,
    cycles: int,
    render: bool,
)
    requires
        line_in_frame(pre.regs),
        Ppu::cycled(pre, post, pre_flags, post_flags, cgb, cycles, render),
    ensures
        line_in_frame(post.regs),
        post.regs.mode_spec() <= 3,
{
    reveal(Ppu::cycled);
    lemma_stat_bits(post.regs.stat, 0, 0);
    if pre.regs.lcdc_enabled_spec() {
        lemma_run_in_frame(
            Timing { clock: pre.clock + cycles, ..pre.timing(pre_flags) },
            pre.vram.memory@,
            pre.voam@,
            cgb,
        );
    }
}

/// A write to a PPU address keeps LY at most 153 (below 144 outside VBLANK) and the mode at
/// most 3.
pub proof fn law_ppu_write_keeps_lines(pre: Ppu, post: Ppu, dma: bool, cgb: Cgb, a: u16, value: u8)
    requires
        line_in_frame(pre.regs),
        Ppu::written(pre, post, dma, cgb, a, value),
    ensures
        line_in_frame(post.regs),
        post.regs.mode_spec() <= 3,
{
    let s = pre.regs.stat;
    lemma_stat_bits(s, HBLANK, value);
    lemma_stat_bits(s, OAM, value);
    lemma_stat_bits(post.regs.stat, 0, 0);
}

/// A CPU write to any other address (bar the bank select SVBK) leaves a work-RAM cell as it
/// was, read at its address in `0xC000..=0xDDFF` and at its echo `0x2000` higher, while no
/// OAM DMA runs; with `law_wram_read_back`, the echo mirrors work RAM across any later writes
/// elsewhere.
pub proof fn law_wram_kept<C: Cartridge>(
    pre: Bus,
    post: Bus,
    pre_cart: C,
    post_cart: C,
    a: u16,
    b: u16,
    w: u8,
)
    requires
        pre.wf(),
        !pre.dma.is_active_spec(),
        !post.dma.is_active_spec(),
        0xC000 <= a <= 0xDDFF,
        b != a,
        b != a + 0x2000,
        b != 0xFF70,
        Bus::written(pre, post, pre_cart, post_cart, false, b, w),
    ensures
        post.read_spec(post_cart, false, a) == pre.read_spec(pre_cart, false, a),
        post.read_spec(post_cart, false, (a + 0x2000) as u16) == pre.read_spec(pre_cart, false, a),
{
    reveal(Bus::written);
    reveal(Bus::read_spec_with);
}

/// A colour write through the data register with auto-increment on (bit 7 of the
/// specification register) moves on to the next of the 64 byte addresses, wrapping around;
/// with it off, the address stays.
pub proof fn law_palette_auto_increment(p: Palette, v: u8)
    ensures
        p.index & 0x80 != 0 ==> {
            &&& p.write_spec(1, v).index & 0x80 != 0
            &&& p.write_spec(1, v).index & 0x3F == ((p.index & 0x3F) + 1) % 64
        },
        p.index & 0x80 == 0 ==> p.write_spec(1, v).index == p.index,
{
    let i = p.index;
    assert(i & 0x80 != 0 ==> {
        &&& (0x80 | (((i + 1) % 256) as u8 & 0x3F)) & 0x80 != 0
        &&& (0x80 | (((i + 1) % 256) as u8 & 0x3F)) & 0x3F == ((i & 0x3F) + 1) % 64
    }) by (bit_vector);
}

/// A length counter after `n` ticks while enabled.
pub open spec fn length_ticked<const MAX: u16>(l: Length<MAX>, n: nat) -> Length<MAX>
    decreases n,
{
    if n == 0 {
        l
    } else {
        length_ticked(l.step_spec(true).0, (n - 1) as nat)
    }
}

/// While enabled, a length counter counts down by one per tick and stops at zero; the tick
/// that takes it from one to zero, and no other, reports it expired.
pub proof fn law_length_countdown<const MAX: u16>(l: Length<MAX>, n: nat)
    ensures
        length_ticked(l, n).counter == if n <= l.counter {
            l.counter - n
        } else {
            0
        },
        length_ticked(l, n).value == l.value,
        l.step_spec(true).1 <==> l.counter == 1,
    decreases n,
{
    if n > 0 {
        law_length_countdown(l.step_spec(true).0, (n - 1) as nat);
    }
}

/// A sweep tick never gives the channel a period beyond eleven bits.
pub proof fn law_sweep_period_bounded(s: Sweep, p: Period)
    requires
        p.value <= 0x7FF,
    ensures
        s.step_spec(p).1.value <= 0x7FF,
{
}

/// One LFSR shift keeps the register within fifteen bits; in 7-bit mode bit 6 then equals
/// bit 14.
proof fn lemma_lfsr_next_bounded(lfsr: u16, width_mode: bool)
    by (bit_vector)
    requires
        lfsr < 0x8000,
    ensures
        lfsr_next(lfsr, width_mode) < 0x8000,
        width_mode ==> (lfsr_next(lfsr, width_mode) >> 6u16) & 1 == (lfsr_next(lfsr, width_mode)
            >> 14u16) & 1,
{
}

/// The noise LFSR stays within fifteen bits, however long the generator runs.
pub proof fn law_lfsr_bounded(n: Noise, cycles: usize)
    requires
        n.lfsr < 0x8000,
    ensures
        n.step_spec(cycles).lfsr < 0x8000,
        n.trigger_spec().lfsr < 0x8000,
{
    assert forall|lfsr: u16, w: bool, m: nat| lfsr < 0x8000 implies #[trigger] lfsr_after(lfsr, w, m)
        < 0x8000 by {
        lemma_lfsr_after_bounded(lfsr, w, m);
    }
}

proof fn lemma_lfsr_after_bounded(lfsr: u16, width_mode: bool, n: nat)
    requires
        lfsr < 0x8000,
    ensures
        lfsr_after(lfsr, width_mode, n) < 0x8000,
    decreases n,
{
    if n > 0 {
        lemma_lfsr_after_bounded(lfsr, width_mode, (n - 1) as nat);
        lemma_lfsr_next_bounded(lfsr_after(lfsr, width_mode, (n - 1) as nat), width_mode);
    }
}

/// The byte a colour write stores reads back, and the byte address selects a colour
/// component of the 96 in the palette memory.
proof fn lemma_palette_bits(i: u8, v: u8, c1: u8)
    by (bit_vector)
    ensures
        (v & 0x1F) | ((((c1 & 0x18) | (v >> 5u8)) & 0x07) << 5u8) == v,
        ((((c1 & 0x07) | ((v & 0x3) << 3u8)) & 0x18) >> 3u8) | (((v >> 2u8) & 0x1F) << 2u8) == v
            & 0x7F,
        ((i & 0x3F) >> 3u8) < 8,
        (((i & 0x3F) >> 1u8) & 0x3) < 4,
        ((i & 0x3F) & 0x01 == 0) == (i & 1 == 0),
{
}

/// With auto-increment off, a colour byte written through the data register reads back the
/// same (bit 7 of a high byte, which no colour uses, reads as 0), and the specification
/// register is unchanged.
pub proof fn law_palette_read_back(p: Palette, v: u8)
    requires
        p.index & 0x80 == 0,
    ensures
        p.write_spec(1, v).read_spec(1) == if p.index & 1 == 0 {
            v
        } else {
            v & 0x7F
        },
        p.write_spec(1, v).read_spec(0) == p.read_spec(0),
{
    let (lower, palette, col) = p.selection();
    lemma_palette_bits(p.index, v, p.data[slot(palette, col, 1)]);
    let q = p.write_spec(1, v);
    assert(q.index == p.index);
    assert(0 <= slot(palette, col, 0) && slot(palette, col, 2) < 96);
}

/// Requesting interrupts only adds bits to the flags.
proof fn lemma_flag_bits(x: u8, f0: u8)
    by (bit_vector)
    ensures
        x & f0 == f0 ==> (x | 1u8) & f0 == f0 && (x | 2u8) & f0 == f0,
        x & 1u8 != 0 ==> (x | 2u8) & 1u8 != 0,
        (x | 1u8) & 1u8 != 0,
        x & x == x,
{
}

/// The flags of a timing keep the bits of `f0`, and a completed frame has requested VBLANK.
pub open spec fn flags_kept(t: Timing, f0: u8) -> bool {
    &&& t.flags & f0 == f0
    &&& t.render ==> t.flags & INTERRUPT_VBLANK != 0
}

proof fn lemma_step_flags(t: Timing, vram: Seq<u8>, voam: Seq<u8>, cgb: Cgb, f0: u8)
    requires
        flags_kept(t, f0),
        step(t, vram, voam, cgb) is Some,
    ensures
        flags_kept(step(t, vram, voam, cgb)->0, f0),
{
    let f = t.flags;
    lemma_flag_bits(f, f0);
    let (r, f1) = t.regs.ly_updated(t.flags, ((t.regs.ly + 1) % 256) as u8);
    lemma_flag_bits(f1, f0);
    lemma_flag_bits(f1 | 1u8, f0);
    let (r2, f2) = r.ly_updated(f1, 0);
    lemma_flag_bits(f2, f0);
}

proof fn lemma_run_flags(t: Timing, vram: Seq<u8>, voam: Seq<u8>, cgb: Cgb, f0: u8)
    requires
        flags_kept(t, f0),
    ensures
        flags_kept(run(t, vram, voam, cgb), f0),
    decreases t.clock,
{
    match step(t, vram, voam, cgb) {
        Some(n) => {
            lemma_step_flags(t, vram, voam, cgb, f0);
            if n.clock < t.clock && n.clock >= 0 {
                lemma_run_flags(n, vram, voam, cgb, f0);
            }
        },
        None => {},
    }
}

/// Running the PPU only ever sets interrupt request bits, never clears one, and a completed
/// frame comes with the VBLANK request set.
pub proof fn law_ppu_cycle_flags(
    pre: Ppu,
    post: Ppu,
    pre_flags: u8,
    post_flags: u8,
    cgb: Cgb,
    cycles: int,
    render: bool,
)
    requires
        Ppu::cycled(pre, post, pre_flags, post_flags, cgb, cycles, render),
    ensures
        post_flags & pre_flags == pre_flags,
        render ==> post_flags & INTERRUPT_VBLANK != 0,
{
    reveal(Ppu::cycled);
    lemma_flag_bits(pre_flags, pre_flags);
    if pre.regs.lcdc_enabled_spec() {
        lemma_run_flags(
            Timing { clock: pre.clock + cycles, ..pre.timing(pre_flags) },
            pre.vram.memory@,
            pre.voam@,
            cgb,
            pre_flags,
        );
    }
}

/// Running the noise generator keeps its register value; with clock shift 14 or 15 the LFSR
/// stands still; and in 7-bit mode, once the LFSR has shifted, its bit 6 equals its bit 14
/// (the feedback enters both).
pub proof fn law_noise_seven_bit(n: Noise, cycles: usize)
    requires
        n.lfsr < 0x8000,
    ensures
        n.step_spec(cycles).value == n.value,
        n.clock_shift_spec() >= 14 ==> n.step_spec(cycles).lfsr == n.lfsr,
        n.width_mode_spec() && n.step_spec(cycles).lfsr != n.lfsr ==> (n.step_spec(cycles).lfsr
            >> 6u16) & 1 == (n.step_spec(cycles).lfsr >> 14u16) & 1,
{
    let p = n.period_spec();
    crate::bus::apu::components::lemma_noise_period(n);
    let first = if n.timer == 0 {
        p
    } else {
        n.timer as int
    };
    let k: int = if cycles < first {
        0
    } else {
        1 + (cycles - first) / p
    };
    assert(n.step_spec(cycles).lfsr == if n.clock_shift_spec() >= 14 {
        n.lfsr
    } else {
        lfsr_after(n.lfsr, n.width_mode_spec(), k as nat)
    });
    if k == 0 {
        assert(lfsr_after(n.lfsr, n.width_mode_spec(), 0) == n.lfsr);
    }
    if n.clock_shift_spec() < 14 && k > 0 {
        lemma_lfsr_after_bounded(n.lfsr, n.width_mode_spec(), (k - 1) as nat);
        lemma_lfsr_next_bounded(lfsr_after(n.lfsr, n.width_mode_spec(), (k - 1) as nat), n.width_mode_spec());
        assert(lfsr_after(n.lfsr, n.width_mode_spec(), k as nat) == lfsr_next(
            lfsr_after(n.lfsr, n.width_mode_spec(), (k - 1) as nat),
            n.width_mode_spec(),
        ));
    }
}

/// The bytes that the serial port completes sending in `cycles` T-cycles: the byte in SB
/// where a running transfer ends and a consumer is attached, else none.
pub open spec fn completed(port: SerialState, cycles: usize) -> Seq<u8> {
    if port.active && port.counted(cycles) >= TRANSFER_CYCLES && port.output is Some {
        seq![port.sb]
    } else {
        Seq::empty()
    }
}

/// Every byte that the serial port sends reaches a connected receiver exactly once and in
/// order: moving the bytes, running the port, and moving again leaves the buffer holding what
/// it held, then what was pending, then what the port completed, and nothing pending.
pub proof fn law_serial_delivery(
    v0: SerialView,
    v1: SerialView,
    v2: SerialView,
    p0: SerialState,
    p1: SerialState,
    p2: SerialState,
    p3: SerialState,
    f0: u8,
    f1: u8,
    cycles: usize,
)
    requires
        v0.connection is Some,
        SerialView::moved(v0, v1, p0, p1),
        SerialState::cycled(p1, p2, f0, f1, cycles),
        SerialView::moved(v1, v2, p2, p3),
    ensures
        v2.connection matches Some(b) && b@ == v0.connection->0@ + p0.sent() + completed(p1, cycles),
        p3.sent() == Seq::<u8>::empty(),
{
    reveal(SerialState::cycled);
    let b0 = v0.connection->0@;
    if p1.active && p1.counted(cycles) >= TRANSFER_CYCLES && p1.output is Some {
        assert(p2.sent() =~= seq![p1.sb]);
    } else {
        assert(p2.sent() =~= Seq::<u8>::empty());
    }
    assert(b0 + p0.sent() + p2.sent() =~= b0 + p0.sent() + completed(p1, cycles));
}

/// Moving the bytes again with none sent since leaves the receiver's buffer as it was.
pub proof fn law_serial_no_repeat(v0: SerialView, v1: SerialView, p0: SerialState, p1: SerialState)
    requires
        p0.sent() == Seq::<u8>::empty(),
        SerialView::moved(v0, v1, p0, p1),
    ensures
        v0.connection matches Some(b) ==> v1.connection matches Some(b1) && b1@ == b@,
        v0.connection is None ==> v1.connection is None,
{
    match v0.connection {
        Some(b) => {
            assert(b@ + p0.sent() =~= b@);
        },
        None => {},
    }
}

/// After a write of `v` to a length counter, ticking it while enabled reports expiry on tick
/// number `MAX - v` and on no other; a tick while disabled changes nothing.
pub proof fn law_length_after_write<const MAX: u16>(l: Length<MAX>, v: u8, k: nat)
    requires
        v < MAX,
        k >= 1,
    ensures
        length_ticked(l.write_spec(v), (k - 1) as nat).step_spec(true).1 <==> k == MAX - v,
        l.step_spec(false) == (l, false),
{
    law_length_countdown(l.write_spec(v), (k - 1) as nat);
    law_length_countdown(length_ticked(l.write_spec(v), (k - 1) as nat), 0);
}

/// Echo RAM mirrors work RAM: after `v` is written at a work-RAM address or at its echo, and
/// then some other address (bar SVBK) is written, both addresses read `v`, while no OAM DMA
/// runs.
pub proof fn law_echo_mirror<C: Cartridge>(
    b0: Bus,
    b1: Bus,
    b2: Bus,
    c0: C,
    c1: C,
    c2: C,
    a: u16,
    echo: bool,
    v: u8,
    b: u16,
    w: u8,
)
    requires
        b0.wf(),
        b1.wf(),
        !b0.dma.is_active_spec(),
        !b1.dma.is_active_spec(),
        !b2.dma.is_active_spec(),
        0xC000 <= a <= 0xDDFF,
        Bus::written(b0, b1, c0, c1, false, if echo { (a + 0x2000) as u16 } else { a }, v),
        b != a,
        b != a + 0x2000,
        b != 0xFF70,
        Bus::written(b1, b2, c1, c2, false, b, w),
    ensures
        b2.read_spec(c2, false, a) == v,
        b2.read_spec(c2, false, (a + 0x2000) as u16) == v,
{
    law_wram_read_back(b0, b1, c0, c1, if echo { (a + 0x2000) as u16 } else { a }, v);
    law_wram_kept(b1, b2, c1, c2, a, b, w);
}

/// The eight accumulator operations do what their names say, with A holding `a` and `c` the
/// carry flag: ADD, ADC, SUB, SBC, AND, XOR and OR leave the result in A (8-bit, wrapping),
/// CP leaves A alone; Z tells whether the result is zero; N is set by SUB, SBC and CP only;
/// H is the carry (borrow) out of bit 3, and set by AND; C is the carry (borrow) out of bit 7,
/// and clear after AND, XOR and OR. No other register changes.
pub proof fn law_alu_ops(r: Registers, v: u8, op: u8)
    requires
        op < 8,
    ensures
        ({
            let a = r.a() as int;
            let c: int = if flag_c(r.f()) {
                1
            } else {
                0
            };
            let post = alu(op, r, v);
            let f = post.f();
            &&& post.bc == r.bc && post.de == r.de && post.hl == r.hl
            &&& post.sp == r.sp && post.pc == r.pc
            &&& op == 0 ==> {
                &&& post.a() == (a + v) % 256
                &&& flag_z(f) == ((a + v) % 256 == 0) && !flag_n(f)
                &&& flag_h(f) == (a % 16 + v % 16 > 15) && flag_c(f) == (a + v > 255)
            }
            &&& op == 1 ==> {
                &&& post.a() == (a + v + c) % 256
                &&& flag_z(f) == ((a + v + c) % 256 == 0) && !flag_n(f)
                &&& flag_h(f) == (a % 16 + v % 16 + c > 15) && flag_c(f) == (a + v + c > 255)
            }
            &&& op == 2 ==> {
                &&& post.a() == (a - v + 256) % 256
                &&& flag_z(f) == (a == v) && flag_n(f)
                &&& flag_h(f) == (a % 16 < v % 16) && flag_c(f) == (a < v)
            }
            &&& op == 3 ==> {
                &&& post.a() == (a - v - c + 512) % 256
                &&& flag_z(f) == ((a - v - c + 512) % 256 == 0) && flag_n(f)
                &&& flag_h(f) == (a % 16 < v % 16 + c) && flag_c(f) == (a < v + c)
            }
            &&& op == 4 ==> {
                &&& post.a() == r.a() & v
                &&& flag_z(f) == (r.a() & v == 0) && !flag_n(f) && flag_h(f) && !flag_c(f)
            }
            &&& op == 5 ==> {
                &&& post.a() == r.a() ^ v
                &&& flag_z(f) == (r.a() ^ v == 0) && !flag_n(f) && !flag_h(f) && !flag_c(f)
            }
            &&& op == 6 ==> {
                &&& post.a() == r.a() | v
                &&& flag_z(f) == (r.a() | v == 0) && !flag_n(f) && !flag_h(f) && !flag_c(f)
            }
            &&& op == 7 ==> {
                &&& post.a() == r.a()
                &&& flag_z(f) == (a == v) && flag_n(f)
                &&& flag_h(f) == (a % 16 < v % 16) && flag_c(f) == (a < v)
            }
        }),
{
    let a = r.a();
    let f0 = r.f();
    let post = alu(op, r, v);
    crate::cpu::registers::lemma_word(post.a(), post.f());
    let cf = flag_c(f0);
    if op == 0 || op == 1 {
        let cc: int = if op == 1 && cf {
            1
        } else {
            0
        };
        let s = a + v + cc;
        crate::cpu::registers::lemma_word(wrap8(s), make_f(wrap8(s) == 0, false, a % 16 + v % 16 + cc > 15, s > 255, f0));
        crate::cpu::registers::lemma_flags_of_make_f(wrap8(s) == 0, false, a % 16 + v % 16 + cc > 15, s > 255, f0);
    } else if op == 2 || op == 3 || op == 7 {
        let cc: int = if op == 3 && cf {
            1
        } else {
            0
        };
        let d = a - v - cc;
        let res = if op == 7 { a } else { wrap8(d) };
        let fl = make_f(wrap8(d) == 0, true, a % 16 < v % 16 + cc, a < v + cc, f0);
        crate::cpu::registers::lemma_word(res, fl);
        crate::cpu::registers::lemma_flags_of_make_f(wrap8(d) == 0, true, a % 16 < v % 16 + cc, a < v + cc, f0);
        assert(wrap8(d) == (d + 512) % 256);
    } else {
        let res = if op == 4 { a & v } else if op == 5 { a ^ v } else { a | v };
        crate::cpu::registers::lemma_word(res, make_f(res == 0, false, op == 4, false, f0));
        crate::cpu::registers::lemma_flags_of_make_f(res == 0, false, op == 4, false, f0);
    }
}

/// Opcodes 0x80 to 0xBF apply accumulator operation `(opcode >> 3) & 7` to operand
/// `opcode & 7` (B, C, D, E, H, L, the byte at HL, A), and opcodes 0xC6, 0xCE, ..., 0xFE to
/// the immediate byte after the opcode, which PC then passes.
pub proof fn law_accumulator_opcodes<C: Cartridge>(r: Registers, bus: Bus, cart: C, opcode: u8)
    ensures
        0x80 <= opcode <= 0xBF ==> outcome(r, bus, cart, opcode).regs == alu(
            (opcode / 8) % 8,
            r,
            r.read_index_spec(cart, bus, opcode % 8),
        ),
        opcode >= 0xC0 && opcode % 8 == 6 ==> outcome(r, bus, cart, opcode).regs == alu(
            (opcode / 8) % 8,
            Registers { pc: ((r.pc + 1) % 0x10000) as u16, ..r },
            rd(bus, cart, r.pc as int),
        ),
        0x80 <= opcode <= 0xBF || (opcode >= 0xC0 && opcode % 8 == 6) ==> outcome(r, bus, cart, opcode).store
            == Store::Nothing && outcome(r, bus, cart, opcode).signal == Signal::Nothing,
{
}

/// The operand fields 0 to 7 name B, C, D, E, H, L, the byte at HL and A: the high and low
/// bytes of BC, DE and HL, the memory at HL, and the high byte of AF.
pub proof fn law_operand_index<C: Cartridge>(r: Registers, bus: Bus, cart: C)
    ensures
        r.read_index_spec(cart, bus, 0) == r.bc / 256,
        r.read_index_spec(cart, bus, 1) == r.bc % 256,
        r.read_index_spec(cart, bus, 2) == r.de / 256,
        r.read_index_spec(cart, bus, 3) == r.de % 256,
        r.read_index_spec(cart, bus, 4) == r.hl / 256,
        r.read_index_spec(cart, bus, 5) == r.hl % 256,
        r.read_index_spec(cart, bus, 6) == bus.read_spec(cart, false, r.hl),
        r.read_index_spec(cart, bus, 7) == r.af / 256,
{
}

/// The colour number of pixel `bit` (7 is the leftmost) of a tile row stored as the byte pair
/// `lo`, `hi`: bit `bit` of `lo` is bit 0 of the number, bit `bit` of `hi` bit 1.
pub open spec fn tile_pixel(lo: u8, hi: u8, bit: int) -> u8 {
    ((lo >> (bit as u8)) & 1) | (((hi >> (bit as u8)) & 1) << 1u8)
}

/// Background column `x` of line LY shows a pixel of the tile that the map entry under it
/// names: the map at 0x9800 or 0x9C00 (LCDC bit 3, bit 6 for the window) is 32 by 32 tiles;
/// the tile data lies at 0x8000 + 16 * index, or (LCDC bit 4 clear) at 0x9000 + 16 * index
/// with the index taken as signed; the row within the tile is the line within it (counted from the
/// bottom with a y flip), and the pixel is bit `7 - column within the tile` of the row bytes
/// (bit `column` with an x flip): the most significant bit is the leftmost pixel. In colour
/// mode the attribute byte in VRAM bank 1 gives the palette, the flips and the tile's bank;
/// without colour there are no attributes.
pub proof fn law_background_pixel(regs: PpuRegisters, vram: Seq<u8>, cgb: Cgb, window_line: u8, x: int)
    requires
        0 <= x < 160,
        vram.len() == 0x4000,
    ensures
        ({
            let window = use_window(regs, x);
            let px: int = if window {
                x + 7 - regs.wx
            } else {
                x + regs.scx
            };
            let py: int = if window {
                window_line as int
            } else {
                regs.ly + regs.scy
            };
            let map_bit = if window {
                regs.lcdc & 0x40 != 0
            } else {
                regs.lcdc & 0x08 != 0
            };
            let entry = (if map_bit {
                0x1C00int
            } else {
                0x1800int
            }) + ((py / 8) % 32) * 32 + (px / 8) % 32;
            let attr: u8 = if cgb.enabled {
                vram[entry + 0x2000]
            } else {
                0
            };
            let index = vram[entry] as int;
            let data = if regs.lcdc & 0x10 != 0 {
                index * 16
            } else if index < 128 {
                0x1000 + index * 16
            } else {
                0x1000 + (index - 256) * 16
            };
            let base = data + if attr & 0x08 != 0 {
                0x2000int
            } else {
                0
            };
            let line = if attr & 0x40 != 0 {
                7 - py % 8
            } else {
                py % 8
            };
            let bit = if attr & 0x20 != 0 {
                px % 8
            } else {
                7 - px % 8
            };
            &&& bg_color(regs, vram, cgb, window_line, x).0 == tile_pixel(
                vram[base + line * 2],
                vram[base + line * 2 + 1],
                bit,
            )
            &&& bg_color(regs, vram, cgb, window_line, x).1 == attr & 0x07
        }),
{
    assert(0u8 & 0x07u8 == 0 && 0u8 & 0x08u8 == 0 && 0u8 & 0x20u8 == 0 && 0u8 & 0x40u8 == 0)
        by (bit_vector);
    let (map_base, px, py) = crate::bus::ppu::draw::map_position(regs, window_line, x);
    let entry = crate::bus::ppu::draw::tile_map_entry(map_base, px, py);
    let (palnr, xflip, yflip, priority, bank1) = crate::bus::ppu::draw::tile_attributes(vram, cgb, entry);
    let attr: u8 = if cgb.enabled {
        vram[entry + 0x2000]
    } else {
        0
    };
    assert(palnr == attr & 0x07);
    assert(xflip == (attr & 0x20 != 0));
    assert(yflip == (attr & 0x40 != 0));
    assert(bank1 == (attr & 0x08 != 0));
}

/// Column `x` of object `s` (with `s.x <= x < s.x + 8`) shows bit `7 - (x - s.x)` of the
/// object's tile row (bit `x - s.x` with an x flip): the most significant bit is the leftmost
/// pixel. The row is line `LY - s.y` of the object (counted from the bottom with a y flip),
/// in tile `s.tile` at 0x8000 + 16 * tile (with bit 0 of the tile ignored for 8x16 objects),
/// in VRAM bank 1 where the attributes ask for it in colour mode.
pub proof fn law_sprite_pixel(regs: PpuRegisters, vram: Seq<u8>, cgb: Cgb, s: Sprite, x: int)
    requires
        s.x <= x < s.x + 8,
    ensures
        ({
            let height: int = if regs.lcdc & 0x04 != 0 {
                16
            } else {
                8
            };
            let dy = regs.ly - s.y;
            let line = if s.attrs & 0x40 != 0 {
                height - 1 - dy
            } else {
                dy
            };
            let tile: int = if height == 16 {
                (s.tile & 0xFE) as int
            } else {
                s.tile as int
            };
            let row = tile * 16 + line * 2 + if s.attrs & 0x08 != 0 && cgb.enabled {
                0x2000int
            } else {
                0
            };
            let bit = if s.attrs & 0x20 != 0 {
                x - s.x
            } else {
                7 - (x - s.x)
            };
            sprite_color_number(regs, vram, cgb, s, x) == tile_pixel(vram[row], vram[row + 1], bit)
        }),
{
}

proof fn lemma_ticked(tima: u8, tma: u8, n: nat)
    ensures
        tima + n < 256 ==> ticked(tima, tma, n) == ((tima + n) as u8, false),
        tima + n == 256 ==> ticked(tima, tma, n) == (tma, true),
    decreases n,
{
    if n > 0 {
        lemma_ticked(tima, tma, (n - 1) as nat);
    }
}

/// DIV counts once per 256 T-cycles. While TAC enables the timer, TIMA counts once per 1024,
/// 16, 64 or 256 T-cycles for clock select (TAC bits 0 and 1) 0, 1, 2 or 3, carrying the
/// T-cycles left over; when TIMA passes 0xFF it is loaded from TMA and the timer interrupt is
/// requested. A disabled timer leaves TIMA alone.
pub proof fn law_timer_rate(pre: Timer, post: Timer, pre_i: Interrupts, post_i: Interrupts, cycles: int)
    requires
        Timer::cycled(pre, post, pre_i, post_i, cycles),
        cycles >= 0,
    ensures
        post.div == (pre.div + (pre.internaldiv + cycles) / 256) % 256,
        ({
            let period: int = if pre.tac & 3 == 0 {
                1024
            } else if pre.tac & 3 == 1 {
                16
            } else if pre.tac & 3 == 2 {
                64
            } else {
                256
            };
            let n = (pre.internalcnt + cycles) / period;
            &&& pre.tac & 4 != 0 && pre.tima + n < 256 ==> {
                &&& post.tima == pre.tima + n
                &&& post.internalcnt == (pre.internalcnt + cycles) % period
                &&& post_i == pre_i
            }
            &&& pre.tac & 4 != 0 && pre.tima + n == 256 ==> {
                &&& post.tima == pre.tma
                &&& post_i.i == pre_i.i | 4
            }
            &&& pre.tac & 4 == 0 ==> post.tima == pre.tima && post_i == pre_i
        }),
{
    reveal(Timer::cycled);
    let total = pre.internalcnt + cycles;
    let step = crate::bus::timer::step_spec(pre.tac) as int;
    let period: int = if pre.tac & 3 == 0 {
        1024
    } else if pre.tac & 3 == 1 {
        16
    } else if pre.tac & 3 == 2 {
        64
    } else {
        256
    };
    let tac = pre.tac;
    assert(tac & 3 < 4) by (bit_vector);
    assert(step == period);
    if total >= 0 {
        lemma_ticked(pre.tima, pre.tma, (total / period) as nat);
    }
}

proof fn lemma_joypad_bits(s: u8, k: u8)
    by (bit_vector)
    requires
        k < 8,
    ensures
        (s & !(1u8 << k)) | 0u8 == s & !(1u8 << k),
        k < 4 ==> (s & !(1u8 << k)) & 0xF == (s & 0xF) & !(1u8 << k),
        k < 4 ==> ((s & !(1u8 << k)) | (1u8 << k)) & 0xF == (s & 0xF) | (1u8 << k),
        k < 4 ==> (s & !(1u8 << k)) >> 4u8 == s >> 4u8,
        k < 4 ==> ((s & !(1u8 << k)) | (1u8 << k)) >> 4u8 == s >> 4u8,
        k >= 4 ==> (s & !(1u8 << k)) >> 4u8 == (s >> 4u8) & !(1u8 << ((k - 4u8) as u8)),
        k >= 4 ==> ((s & !(1u8 << k)) | (1u8 << k)) >> 4u8 == (s >> 4u8) | (1u8 << ((k - 4u8) as u8)),
        k >= 4 ==> (s & !(1u8 << k)) & 0xF == s & 0xF,
        k >= 4 ==> ((s & !(1u8 << k)) | (1u8 << k)) & 0xF == s & 0xF,
{
}

/// Holding a button clears its line in P1, releasing it sets the line again: with the d-pad
/// selected, Right, Left, Up and Down are lines 0, 1, 2 and 3; with the buttons selected,
/// A, B, Start and Select are lines 0, 1, 2 and 3. A button of the half not selected (or
/// any button while neither half is) does not change what P1 reads.
pub proof fn law_joypad_lines(j: Joypad, c: Controls, down: bool)
    ensures
        ({
            let line: u8 = match c {
                Controls::Right | Controls::A => 0,
                Controls::Left | Controls::B => 1,
                Controls::Up | Controls::Start => 2,
                Controls::Down | Controls::Select => 3,
            };
            let dpad = c is Right || c is Left || c is Up || c is Down;
            let post = Joypad { state: Joypad::updated_state(j.state, c, down), ..j };
            let mask: u8 = 1u8 << line;
            if (j.select == Select::DPad && dpad) || (j.select == Select::Buttons && !dpad) {
                post.read_spec() == if down {
                    j.read_spec() & !mask
                } else {
                    j.read_spec() | mask
                }
            } else {
                post.read_spec() == j.read_spec()
            }
        }),
{
    lemma_joypad_bits(j.state, c.bit_spec());
}

proof fn lemma_mbc5_bank_bits(b: usize, v: u8)
    by (bit_vector)
    requires
        b < 0x200,
    ensures
        ((b & 0x100) | v as usize) % 256 == v as usize,
        ((b & 0x100) | v as usize) / 256 == b / 256,
        ((b & 0x100) | v as usize) < 0x200,
        ((b & 0x0FF) | (((v & 1) as usize) << 8usize)) % 256 == b % 256,
        ((b & 0x0FF) | (((v & 1) as usize) << 8usize)) / 256 == (v & 1) as usize,
        ((b & 0x0FF) | (((v & 1) as usize) << 8usize)) < 0x200,
        0u8 & 1u8 == 0,
{
}

/// MBC5 ROM banking: the bank number has nine bits; a write to 0x2000-0x2FFF sets its low
/// eight bits and keeps bit 8, a write to 0x3000-0x3FFF sets bit 8 to bit 0 of the value
/// and keeps the low eight bits, and no other write changes it. Reads below 0x4000 come from
/// bank 0; reads at 0x4000-0x7FFF from the selected bank (modulo the bank count that the
/// header gives), out of range reading 0xFF.
pub proof fn law_mbc5_rom_banking(pre: MBC5, post: MBC5, address: u16, value: u8)
    requires
        pre.rombank < 0x200,
        MBC5::write_spec(pre, post, address, value),
    ensures
        post.rombank < 0x200,
        0x2000 <= address <= 0x2FFF ==> post.rombank % 256 == value && post.rombank / 256
            == pre.rombank / 256,
        0x3000 <= address <= 0x3FFF ==> post.rombank % 256 == pre.rombank % 256 && post.rombank
            / 256 == value & 1,
        !(0x2000 <= address <= 0x3FFF) ==> post.rombank == pre.rombank,
        forall|a: u16|
            a < 0x4000 ==> #[trigger] post.read_spec(a) == byte_or_open_bus(post.rom@, a as int),
        forall|a: u16|
            0x4000 <= a <= 0x7FFF && post.rombanks > 0 ==> #[trigger] post.read_spec(a)
                == byte_or_open_bus(
                post.rom@,
                (post.rombank % post.rombanks) * 0x4000 + (a - 0x4000),
            ),
{
    lemma_mbc5_bank_bits(pre.rombank, value);
}

/// Writing `n` to 0x2000-0x2FFF and then 0 to 0x3000-0x3FFF selects bank `n`.
pub proof fn law_mbc5_select_bank(p0: MBC5, p1: MBC5, p2: MBC5, a1: u16, a2: u16, n: u8)
    requires
        p0.rombank < 0x200,
        0x2000 <= a1 <= 0x2FFF,
        0x3000 <= a2 <= 0x3FFF,
        MBC5::write_spec(p0, p1, a1, n),
        MBC5::write_spec(p1, p2, a2, 0),
    ensures
        p2.rombank == n,
{
    law_mbc5_rom_banking(p0, p1, a1, n);
    law_mbc5_rom_banking(p1, p2, a2, 0);
    lemma_mbc5_bank_bits(0, 0);
}

/// The CB-prefixed rotates and shifts on a byte `v` with carry flag `c`: RLC, RRC, RL, RR,
/// SLA, SRA, SWAP and SRL (kinds 0 to 7) move the bits as their names say, and the bit
/// shifted out (bit 7 for the left moves, bit 0 for the right ones, none for SWAP) goes to
/// the carry.
pub proof fn law_shift_ops(v: u8, c: bool)
    by (bit_vector)
    ensures
        shift_result(0, v, c) == (v << 1u8) | (v >> 7u8),
        shift_result(1, v, c) == (v >> 1u8) | (v << 7u8),
        shift_result(2, v, c) == (v << 1u8) | (if c {
            1u8
        } else {
            0u8
        }),
        shift_result(3, v, c) == (v >> 1u8) | (if c {
            0x80u8
        } else {
            0u8
        }),
        shift_result(4, v, c) == v << 1u8,
        shift_result(5, v, c) == (v >> 1u8) | (v & 0x80u8),
        shift_result(6, v, c) == (v << 4u8) | (v >> 4u8),
        shift_result(7, v, c) == v >> 1u8,
        shift_carry(0, v) == (v & 0x80u8 != 0) && shift_carry(2, v) == (v & 0x80u8 != 0),
        shift_carry(4, v) == (v & 0x80u8 != 0),
        shift_carry(1, v) == (v & 1u8 != 0) && shift_carry(3, v) == (v & 1u8 != 0),
        shift_carry(5, v) == (v & 1u8 != 0) && shift_carry(7, v) == (v & 1u8 != 0),
        !shift_carry(6, v),
{
}

/// INC and DEC add and subtract one, wrapping at 8 bits; Z tells whether the result is
/// zero, N is set by DEC only, H is the carry out of (borrow into) bit 3, and C is kept.
pub proof fn law_inc_dec_flags(f: u8, v: u8)
    ensures
        inc8(f, v).0 == (v + 1) % 256,
        flag_z(inc8(f, v).1) == (v == 255) && !flag_n(inc8(f, v).1),
        flag_h(inc8(f, v).1) == (v % 16 == 15) && flag_c(inc8(f, v).1) == flag_c(f),
        dec8(f, v).0 == (v + 255) % 256,
        flag_z(dec8(f, v).1) == (v == 1) && flag_n(dec8(f, v).1),
        flag_h(dec8(f, v).1) == (v % 16 == 0) && flag_c(dec8(f, v).1) == flag_c(f),
{
    crate::cpu::registers::lemma_flags_of_make_f(wrap8(v + 1) == 0, false, v % 16 == 15, flag_c(f), f);
    crate::cpu::registers::lemma_flags_of_make_f(wrap8(v - 1) == 0, true, v % 16 == 0, flag_c(f), f);
}

/// A monochrome palette register holds four 2-bit shades: colour number 0 gets bits 0-1,
/// colour 1 bits 2-3, colour 2 bits 4-5 and colour 3 bits 6-7.
pub proof fn law_monochrome_palette(palette: u8)
    by (bit_vector)
    ensures
        palette_shade(palette, 0) == palette % 4,
        palette_shade(palette, 1) == (palette / 4) % 4,
        palette_shade(palette, 2) == (palette / 16) % 4,
        palette_shade(palette, 3) == palette / 64,
{
}

proof fn lemma_low_bits(v: u8)
    by (bit_vector)
    ensures
        v <= 0x7F ==> v & 0x7F == v,
        v <= 0x1F ==> v & 0x1F == v,
        0u8 & 0x7F == 0 && 0u8 & 0x1F == 0,
{
}

/// MBC1 ROM banking (in the default banking mode): writing bank number `n` (1 to 31, within
/// the bank count) to 0x2000-0x3FFF maps bank `n` at 0x4000-0x7FFF, and writing 0 maps bank
/// 1 there; 0x0000-0x3FFF keeps showing bank 0.
pub proof fn law_mbc1_rom_banking(pre: MBC1, post: MBC1, address: u16, n: u8)
    requires
        MBC1::write_spec(pre, post, address, n),
        0x2000 <= address <= 0x3FFF,
        !pre.bank_mode,
        n <= 0x1F,
        pre.rom_banks == 0 || pre.rom_banks > 0x1F,
    ensures
        forall|a: u16|
            0x4000 <= a <= 0x7FFF ==> #[trigger] post.read_spec(a) == byte_or_open_bus(
                pre.rom@,
                (if n == 0 {
                    1int
                } else {
                    n as int
                }) * 0x4000 + (a - 0x4000),
            ),
        forall|a: u16| a <= 0x3FFF ==> #[trigger] post.read_spec(a) == byte_or_open_bus(pre.rom@, a as int),
{
    lemma_low_bits(n);
    let bank: int = if n == 0 {
        1
    } else {
        n as int
    };
    if pre.rom_banks > 0 {
        vstd::arithmetic::div_mod::lemma_small_mod(bank as nat, pre.rom_banks as nat);
    }
    assert forall|a: u16| 0x4000 <= a <= 0x7FFF implies #[trigger] post.read_spec(a) == byte_or_open_bus(
        pre.rom@,
        bank * 0x4000 + (a - 0x4000),
    ) by {
        assert(a as int % 0x4000 == a - 0x4000);
    }
}

/// MBC3 ROM banking: writing bank number `n` (1 to 127, within the bank count) to
/// 0x2000-0x3FFF maps bank `n` at 0x4000-0x7FFF, and writing 0 maps bank 1 there;
/// 0x0000-0x3FFF keeps showing bank 0.
pub proof fn law_mbc3_rom_banking(pre: MBC3, post: MBC3, address: u16, n: u8)
    requires
        MBC3::write_spec(pre, post, address, n),
        0x2000 <= address <= 0x3FFF,
        n <= 0x7F,
        pre.rom_banks == 0 || pre.rom_banks > 0x7F,
    ensures
        forall|a: u16|
            0x4000 <= a <= 0x7FFF ==> #[trigger] post.read_spec(a) == byte_or_open_bus(
                pre.rom@,
                (if n == 0 {
                    1int
                } else {
                    n as int
                }) * 0x4000 + (a - 0x4000),
            ),
        forall|a: u16| a <= 0x3FFF ==> #[trigger] post.read_spec(a) == byte_or_open_bus(pre.rom@, a as int),
{
    lemma_low_bits(n);
    let now = choose|now: u64| MBC3::written_at(pre, post, now, address, n);
    let bank: int = if n == 0 {
        1
    } else {
        n as int
    };
    if pre.rom_banks > 0 {
        vstd::arithmetic::div_mod::lemma_small_mod(bank as nat, pre.rom_banks as nat);
    }
    assert forall|a: u16| 0x4000 <= a <= 0x7FFF implies #[trigger] post.read_spec(a) == byte_or_open_bus(
        pre.rom@,
        bank * 0x4000 + (a - 0x4000),
    ) by {
        assert(a as int % 0x4000 == a - 0x4000);
    }
}

/// The four branch conditions NZ, Z, NC and C (condition field 0 to 3) test the zero and
/// carry flags: bit 7 and bit 4 of F.
pub proof fn law_branch_conditions(f: u8)
    ensures
        cc(f, 0) == (f & 0x80 == 0),
        cc(f, 1) == (f & 0x80 != 0),
        cc(f, 2) == (f & 0x10 == 0),
        cc(f, 3) == (f & 0x10 != 0),
{
}

/// ADD HL,rr adds a 16-bit value to HL, wrapping; Z is kept, N cleared, H is the carry out of
/// bit 11 and C the carry out of bit 15; no other register but F changes.
pub proof fn law_add_hl(r: Registers, v: u16)
    ensures
        add_hl(r, v).hl == (r.hl + v) % 0x10000,
        add_hl(r, v).a() == r.a(),
        flag_z(add_hl(r, v).f()) == flag_z(r.f()) && !flag_n(add_hl(r, v).f()),
        flag_h(add_hl(r, v).f()) == (r.hl % 4096 + v % 4096 > 4095),
        flag_c(add_hl(r, v).f()) == (r.hl + v > 0xFFFF),
        add_hl(r, v).bc == r.bc && add_hl(r, v).de == r.de,
        add_hl(r, v).sp == r.sp && add_hl(r, v).pc == r.pc,
{
    let f = make_f(flag_z(r.f()), false, r.hl % 4096 + v % 4096 > 4095, r.hl + v > 0xFFFF, r.f());
    crate::cpu::registers::lemma_word(r.a(), f);
    crate::cpu::registers::lemma_flags_of_make_f(flag_z(r.f()), false, r.hl % 4096 + v % 4096 > 4095, r.hl + v > 0xFFFF, r.f());
}

} // verus!

pub mod apu;
pub mod cdma;
pub mod cgb;
pub mod dma;
pub mod interrupts;
pub mod ir;
pub mod joypad;
pub mod ppu;
pub mod serial;
pub mod timer;
pub mod wram;

use vstd::prelude::*;

use crate::bus::apu::{is_apu_address, APU};
use crate::bus::cdma::{Cdma, Transfer, BLOCK_SIZE};
use crate::bus::cgb::Cgb;
use crate::bus::dma::{Dma, LENGTH};
use crate::bus::interrupts::Interrupts;
use crate::bus::ir::Ir;
use crate::bus::joypad::Joypad;
use crate::bus::ppu::memory::Vram;
use crate::bus::ppu::registers::HBLANK;
use crate::bus::ppu::Ppu;
use crate::bus::serial::SerialState;
use crate::bus::timer::Timer;
use crate::bus::wram::Wram;
use crate::cartridge::{is_cartridge_address, Cartridge};
use crate::cpu::{CycleExecution, ExecutionType};
use crate::Cycles;
use crate::util::{Address, Controls, Memory, Width};

verus! {

pub const WRAM_START: usize = 0xC000;

pub const ECHO_START: usize = 0xE000;

pub const HRAM_START: usize = 0xFF80;

/// Everything that the CPU reaches through its address space, but the cartridge.
pub struct Bus {
    pub wram: Wram,
    pub ppu: Ppu,
    pub timer: Timer,
    pub hram: Memory<0x7F, u8>,
    pub joypad: Joypad,
    pub dma: Dma,
    pub cdma: Cdma,
    pub ir: Ir,
    pub apu: APU,
    pub serial: SerialState,
    pub interrupts: Interrupts,
    pub cgb: Cgb,
}

/// Whether the PPU serves an address.
pub open spec fn is_ppu_mapped(a: u16) -> bool {
    (0x8000 <= a <= 0x9FFF) || (0xFE00 <= a <= 0xFE9F) || (0xFF40 <= a <= 0xFF45) || (0xFF47 <= a
        <= 0xFF4B) || a == 0xFF4F || (0xFF68 <= a <= 0xFF6C)
}

/// Whether the CGB registers serve an address.
pub open spec fn is_cgb_mapped(a: u16) -> bool {
    a == 0xFF4C || a == 0xFF4D || (0xFF72 <= a <= 0xFF75)
}

/// OAM after the DMA unit copied the bytes `from..to` of the block at `src` in `b`, each
/// read through the bus as it stood when it was copied.
pub open spec fn oam_copied<C: Cartridge>(b: Bus, cart: C, src: u16, from: int, to: int) -> Seq<u8>
    decreases to - from,
{
    if to <= from {
        b.ppu.voam@
    } else {
        let o = oam_copied(b, cart, src, from, to - 1);
        o.update(
            to - 1,
            b.read_spec_with(cart, true, ((src + to - 1) % 0x10000) as u16, b.ppu.vram.memory@, o),
        )
    }
}

/// VRAM after the VRAM DMA copied the bytes `from..to` of the block at `src` to the offset
/// `dst` of the mapped bank (wrapping within it), each read through the bus as it stood when
/// it was copied.
pub open spec fn vram_copied<C: Cartridge>(b: Bus, cart: C, src: u16, dst: int, from: int, to: int) -> Seq<u8>
    decreases to - from,
{
    if to <= from {
        b.ppu.vram.memory@
    } else {
        let v = vram_copied(b, cart, src, dst, from, to - 1);
        v.update(
            b.ppu.vram.bank_spec((dst + to - 1) % 0x2000),
            b.read_spec_with(cart, true, ((src + to - 1) % 0x10000) as u16, v, b.ppu.voam@),
        )
    }
}

/// A read through the bus depends on the memories of the PPU only as they are passed in.
pub proof fn lemma_read_with_memories<C: Cartridge>(
    b1: Bus,
    b2: Bus,
    cart: C,
    dma: bool,
    a: u16,
    vram: Seq<u8>,
    oam: Seq<u8>,
)
    requires
        b2 == (Bus {
            ppu: Ppu {
                vram: Vram { memory: b2.ppu.vram.memory, ..b1.ppu.vram },
                voam: b2.ppu.voam,
                ..b1.ppu
            },
            ..b1
        }),
    ensures
        b1.read_spec_with(cart, dma, a, vram, oam) == b2.read_spec_with(cart, dma, a, vram, oam),
{
    reveal(Bus::read_spec_with);
}

impl Bus {
    /// The components in their power-on state; the colour registers and the consumers of
    /// bytes and samples aside.
    pub open spec fn powered_on(&self) -> bool {
        &&& !self.dma.is_active_spec()
        &&& self.dma.source.0 == 0
        &&& self.interrupts == Interrupts::new_spec()
        &&& self.timer == Timer::new_spec()
        &&& self.joypad == Joypad::new_spec()
        &&& self.wram.bank == 1
        &&& forall|i: int| 0 <= i < 0x8000 ==> self.wram.data@[i] == 0
        &&& forall|i: int| 0 <= i < 0x7F ==> self.hram@[i] == 0
        &&& self.ppu.clock == 0 && self.ppu.window_line == 0
        &&& self.ppu.regs.lcdc == 0x91 && self.ppu.regs.stat == 0x85 && self.ppu.regs.ly == 0
        &&& !self.ppu.vram.bank
        &&& forall|i: int| 0 <= i < 0x4000 ==> self.ppu.vram.memory@[i] == 0
        &&& forall|i: int| 0 <= i < 0xA0 ==> self.ppu.voam@[i] == 0
        &&& !self.apu.state.enabled && self.apu.frame_counter == 0 && self.apu.frame_step == 0
        &&& self.ir.i == 0
        &&& self.cdma.transfer is None && self.cdma.hdma5 == 0xFF
        &&& self.cdma.source == 0 && self.cdma.destination == 0
        &&& self.serial.sb == 0 && self.serial.sc == 0x7E && !self.serial.active && self.serial.cycles == 0
    }

    /// Everything as `new` builds it, whether or not consumers of serial bytes and of audio
    /// samples are attached.
    pub open spec fn as_built(&self) -> bool {
        &&& self.powered_on()
        &&& self.cgb == Cgb::new_spec()
        &&& self.dma.clock == LENGTH
        &&& self.ppu.regs.powered_on()
        &&& forall|i: int| 0 <= i < 23040 ==> (#[trigger] self.ppu.framebuffer@[i]).rgb@ == seq![0u8, 0u8, 0u8]
        &&& self.apu.powered_on()
    }

    pub fn new() -> (r: Self)
        ensures
            r.wf(),
            r.serial.output is None,
            r.apu.samples is None,
            !r.dma.is_active_spec(),
            r.interrupts == Interrupts::new_spec(),
            r.cgb == Cgb::new_spec(),
            r.timer == Timer::new_spec(),
            r.joypad == Joypad::new_spec(),
            r.wram.bank == 1,
            forall|i: int| 0 <= i < 0x8000 ==> r.wram.data@[i] == 0,
            forall|i: int| 0 <= i < 0x7F ==> r.hram@[i] == 0,
            r.powered_on(),
            r.as_built(),
    {
        Self {
            wram: Wram::new(),
            ppu: Ppu::new(),
            timer: Timer::new(),
            hram: Memory::new(),
            joypad: Joypad::new(),
            dma: Dma::new(),
            cdma: Cdma::new(),
            ir: Ir::new(),
            apu: APU::new(),
            serial: SerialState::new(),
            interrupts: Interrupts::new(),
            cgb: Cgb::new(),
        }
    }

    pub open spec fn wf(&self) -> bool {
        &&& self.wram.wf()
        &&& self.ppu.wf()
        &&& self.hram.wf()
        &&& self.timer.wf()
        &&& self.apu.wf()
        &&& self.cdma.wf()
    }

    /// Attaches (or detaches) a consumer of the bytes sent over the serial port.
    pub fn set_serial_callback(&mut self, enabled: bool)
        ensures
            final(self).wf() == old(self).wf(),
            final(self).serial.output is Some == enabled,
            final(self).serial.sent() == Seq::<u8>::empty(),
            final(self).serial.sb == old(self).serial.sb,
            final(self).serial.sc == old(self).serial.sc,
            final(self).serial.active == old(self).serial.active,
            final(self).serial.cycles == old(self).serial.cycles,
            final(self).wram == old(self).wram,
            final(self).ppu == old(self).ppu,
            final(self).apu == old(self).apu,
            final(self).interrupts == old(self).interrupts,
            *final(self) == (Bus { serial: final(self).serial, ..*old(self) }),
    {
        if enabled {
            self.serial.set_output(Vec::new());
        } else {
            self.serial.clear_output();
        }
    }

    /// Attaches (or detaches) a consumer of the audio samples.
    pub fn set_audio_callback(&mut self, enabled: bool)
        ensures
            final(self).wf() == old(self).wf(),
            final(self).apu.samples is Some == enabled,
            final(self).apu.samples matches Some(v) ==> v@.len() == 0,
            final(self).apu.state == old(self).apu.state,
            final(self).wram == old(self).wram,
            final(self).ppu == old(self).ppu,
            final(self).serial == old(self).serial,
            final(self).interrupts == old(self).interrupts,
    {
        if enabled {
            self.apu.set_samples(Some(Vec::new()));
        } else {
            self.apu.set_samples(None);
        }
    }

    /// Switches colour mode on for a colour cartridge.
    pub fn load<C: Cartridge>(&mut self, cart: &C)
        ensures
            final(self).cgb == (Cgb { enabled: cart.read_spec(0x143) & 0x80 != 0, ..old(self).cgb }),
            final(self).wram == old(self).wram,
            final(self).ppu == old(self).ppu,
            final(self).hram == old(self).hram,
            final(self).timer == old(self).timer,
            final(self).apu == old(self).apu,
            final(self).cdma == old(self).cdma,
            final(self).serial == old(self).serial,
            final(self).interrupts == old(self).interrupts,
            final(self).dma == old(self).dma,
            final(self).joypad == old(self).joypad,
            final(self).ir == old(self).ir,
    {
        self.cgb.set_enabled(cart);
    }

    /// What a read of `a` gives with VRAM holding `vram` and OAM holding `oam`; `dma` marks
    /// an access by a DMA unit, which OAM DMA does not lock out.
    #[verifier::opaque]
    pub open spec fn read_spec_with<C: Cartridge>(
        &self,
        cart: C,
        dma: bool,
        a: u16,
        vram: Seq<u8>,
        oam: Seq<u8>,
    ) -> u8 {
        if !dma && self.dma.is_active_spec() {
            if 0xFF80 <= a <= 0xFFFE {
                self.hram@[a - 0xFF80]
            } else {
                0xFF
            }
        } else if is_cartridge_address(a) {
            cart.read_spec(a)
        } else if is_ppu_mapped(a) {
            self.ppu.read_spec_with(dma, a, self.cgb, vram, oam)
        } else if 0xC000 <= a <= 0xDFFF {
            self.wram.read_spec(a - 0xC000)
        } else if 0xE000 <= a <= 0xFDFF {
            self.wram.read_spec(a - 0xE000)
        } else if a == 0xFF00 {
            self.joypad.read_spec()
        } else if a == 0xFF01 || a == 0xFF02 {
            self.serial.read_spec(a)
        } else if 0xFF04 <= a <= 0xFF07 {
            self.timer.read_spec(a)
        } else if a == 0xFF0F {
            self.interrupts.i
        } else if is_apu_address(a) {
            self.apu.read_spec(a)
        } else if a == 0xFF46 {
            (self.dma.source.0 / 256) as u8
        } else if is_cgb_mapped(a) {
            self.cgb.read_spec(a)
        } else if 0xFF51 <= a <= 0xFF55 && self.cgb.enabled {
            self.cdma.read_spec(a)
        } else if a == 0xFF56 {
            self.ir.i
        } else if a == 0xFF70 && self.cgb.enabled {
            (self.wram.bank + 1) as u8
        } else if 0xFF80 <= a <= 0xFFFE {
            self.hram@[a - 0xFF80]
        } else if a == 0xFFFF {
            self.interrupts.ie
        } else {
            0xFF
        }
    }

    /// What a read of `a` gives in the present state.
    pub open spec fn read_spec<C: Cartridge>(&self, cart: C, dma: bool, a: u16) -> u8 {
        self.read_spec_with(cart, dma, a, self.ppu.vram.memory@, self.ppu.voam@)
    }

    /// A read by the CPU (`DMA` false) or a DMA unit.
    pub fn read<const DMA: bool, C: Cartridge>(&self, cart: &C, address: Address) -> (r: u8)
        requires
            self.wf(),
        ensures
            r == self.read_spec(*cart, DMA, address.0),
    {
        reveal(Bus::read_spec_with);
        let a = address.value();
        if !DMA && self.dma.is_active() {
            if 0xFF80 <= a && a <= 0xFFFE {
                return self.hram.read(address.index() - HRAM_START);
            } else {
                return 0xFF;
            }
        }
        if a <= 0x7FFF || (0xA000 <= a && a <= 0xBFFF) {
            cart.read(address)
        } else if (0x8000 <= a && a <= 0x9FFF) || (0xFE00 <= a && a <= 0xFE9F) || (0xFF40 <= a && a
            <= 0xFF45) || (0xFF47 <= a && a <= 0xFF4B) || a == 0xFF4F || (0xFF68 <= a && a
            <= 0xFF6C) {
            self.ppu.read::<DMA>(&address, &self.cgb)
        } else if 0xC000 <= a && a <= 0xDFFF {
            self.wram.read(address.sub(WRAM_START))
        } else if 0xE000 <= a && a <= 0xFDFF {
            self.wram.read(address.sub(ECHO_START))
        } else if a == 0xFF00 {
            self.joypad.read()
        } else if a == 0xFF01 || a == 0xFF02 {
            self.serial.read(&address)
        } else if 0xFF04 <= a && a <= 0xFF07 {
            self.timer.read(&address)
        } else if a == 0xFF0F {
            self.interrupts.i
        } else if (0xFF10 <= a && a <= 0xFF26) || (0xFF30 <= a && a <= 0xFF3F) {
            self.apu.read(&address)
        } else if a == 0xFF46 {
            self.dma.read()
        } else if a == 0xFF4C || a == 0xFF4D || (0xFF72 <= a && a <= 0xFF75) {
            self.cgb.read_mapped(&address)
        } else if 0xFF51 <= a && a <= 0xFF55 && self.cgb.enabled() {
            self.cdma.read(&address)
        } else if a == 0xFF56 {
            self.ir.read()
        } else if a == 0xFF70 && self.cgb.enabled() {
            self.wram.read_bank()
        } else if 0xFF80 <= a && a <= 0xFFFE {
            self.hram.read(address.index() - HRAM_START)
        } else if a == 0xFFFF {
            self.interrupts.ie()
        } else {
            0xFF
        }
    }

    /// Whether `post` (with the cartridge `post_cart`) is the bus after a write of `v` to `a`
    /// in `pre` (with `pre_cart`).
    #[verifier::opaque]
    pub open spec fn written<C: Cartridge>(
        pre: Bus,
        post: Bus,
        pre_cart: C,
        post_cart: C,
        dma: bool,
        a: u16,
        v: u8,
    ) -> bool {
        let locked = !dma && pre.dma.is_active_spec();
        &&& if !locked && is_cartridge_address(a) {
            C::write_spec(pre_cart, post_cart, a, v)
        } else {
            post_cart == pre_cart
        }
        &&& if !locked && is_ppu_mapped(a) {
            Ppu::written(pre.ppu, post.ppu, dma, pre.cgb, a, v)
        } else {
            post.ppu == pre.ppu
        }
        &&& post.wram.bank == if !locked && a == 0xFF70 && pre.cgb.enabled {
            if v & 0b111 == 0 {
                0
            } else {
                ((v & 0b111) - 1) as u8
            }
        } else {
            pre.wram.bank
        }
        &&& post.wram.data@ == if !locked && 0xC000 <= a <= 0xDFFF {
            pre.wram.data@.update(pre.wram.map_spec(a - 0xC000), v)
        } else if !locked && 0xE000 <= a <= 0xFDFF {
            pre.wram.data@.update(pre.wram.map_spec(a - 0xE000), v)
        } else {
            pre.wram.data@
        }
        &&& post.hram@ == if 0xFF80 <= a <= 0xFFFE {
            pre.hram@.update(a - 0xFF80, v)
        } else {
            pre.hram@
        }
        &&& post.joypad == if !locked && a == 0xFF00 {
            Joypad { select: Joypad::select_for(v), ..pre.joypad }
        } else {
            pre.joypad
        }
        &&& if !locked && (a == 0xFF01 || a == 0xFF02) {
            &&& post.serial.output == pre.serial.output
            &&& a == 0xFF01 ==> post.serial.sb == v && post.serial.sc == pre.serial.sc
                && post.serial.active == pre.serial.active && post.serial.cycles
                == pre.serial.cycles
            &&& a == 0xFF02 ==> post.serial.sb == pre.serial.sb && post.serial.sc == v & 0x83
                && post.serial.active == (pre.serial.active || v & 0x81 == 0x81)
                && post.serial.cycles == if v & 0x81 == 0x81 {
                0
            } else {
                pre.serial.cycles
            }
        } else {
            post.serial == pre.serial
        }
        &&& post.timer == if !locked && 0xFF04 <= a <= 0xFF07 {
            if a == 0xFF04 {
                Timer { div: 0, internaldiv: 0, ..pre.timer }
            } else if a == 0xFF05 {
                Timer { tima: v, ..pre.timer }
            } else if a == 0xFF06 {
                Timer { tma: v, ..pre.timer }
            } else {
                Timer { tac: v, ..pre.timer }
            }
        } else {
            pre.timer
        }
        &&& if !locked && is_apu_address(a) {
            APU::written(pre.apu, post.apu, a, v)
        } else {
            post.apu == pre.apu
        }
        &&& post.interrupts == if !locked && a == 0xFF0F {
            Interrupts { i: v & 0x1F, ..pre.interrupts }
        } else if !locked && a == 0xFFFF {
            Interrupts { ie: v, ..pre.interrupts }
        } else {
            pre.interrupts
        }
        &&& if !locked && a == 0xFF46 {
            post.dma.source.0 == v as int * 256 && post.dma.clock == 0
        } else {
            post.dma == pre.dma
        }
        &&& post.cgb == if !locked && is_cgb_mapped(a) {
            pre.cgb.write_spec(a, v)
        } else {
            pre.cgb
        }
        &&& post.cdma == if !locked && 0xFF51 <= a <= 0xFF55 && pre.cgb.enabled {
            pre.cdma.write_spec(a, v)
        } else {
            pre.cdma
        }
        &&& post.ir == if !locked && a == 0xFF56 {
            Ir { i: (v & 0x80) | 1 }
        } else {
            pre.ir
        }
    }

    /// A write by the CPU (`DMA` false) or a DMA unit.
    pub fn write<const DMA: bool, C: Cartridge>(&mut self, cart: &mut C, address: Address, value: u8)
        requires
            old(self).wf(),
        ensures
            final(self).wf(),
            Bus::written(*old(self), *final(self), *old(cart), *final(cart), DMA, address.0, value),
    {
        reveal(Bus::written);
        let a = address.value();
        if !DMA && self.dma.is_active() {
            if 0xFF80 <= a && a <= 0xFFFE {
                self.hram.write(address.sub(HRAM_START), value);
            }
            return;
        }
        if a <= 0x7FFF || (0xA000 <= a && a <= 0xBFFF) {
            cart.write(address, value);
        } else if (0x8000 <= a && a <= 0x9FFF) || (0xFE00 <= a && a <= 0xFE9F) || (0xFF40 <= a && a
            <= 0xFF45) || (0xFF47 <= a && a <= 0xFF4B) || a == 0xFF4F || (0xFF68 <= a && a
            <= 0xFF6C) {
            self.ppu.write::<DMA>(&self.cgb, &address, value);
        } else if 0xC000 <= a && a <= 0xDFFF {
            self.wram.write(address.sub(WRAM_START), value);
        } else if 0xE000 <= a && a <= 0xFDFF {
            self.wram.write(address.sub(ECHO_START), value);
        } else if a == 0xFF00 {
            self.joypad.write(value);
        } else if a == 0xFF01 || a == 0xFF02 {
            self.serial.write(&address, value);
        } else if 0xFF04 <= a && a <= 0xFF07 {
            self.timer.write(&address, value);
        } else if (0xFF10 <= a && a <= 0xFF26) || (0xFF30 <= a && a <= 0xFF3F) {
            self.apu.write(&address, value);
        } else if a == 0xFF0F {
            self.interrupts.i = value & 0x1F;
        } else if a == 0xFF46 {
            self.dma.write(value);
        } else if a == 0xFF4C || a == 0xFF4D || (0xFF72 <= a && a <= 0xFF75) {
            self.cgb.write_mapped(&address, value);
        } else if 0xFF51 <= a && a <= 0xFF55 && self.cgb.enabled() {
            self.cdma.write(&address, value);
        } else if a == 0xFF56 {
            self.ir.write(value);
        } else if a == 0xFF70 && self.cgb.enabled() {
            self.wram.write_bank(value);
        } else if 0xFF80 <= a && a <= 0xFFFE {
            self.hram.write(address.sub(HRAM_START), value);
        } else if a == 0xFFFF {
            self.interrupts.ie = value;
        }
    }

    /// A little-endian 16-bit read: the byte at `address` and the one after it.
    pub fn read_word<const DMA: bool, C: Cartridge>(&self, cart: &C, address: Address) -> (r: Width)
        requires
            self.wf(),
        ensures
            r == self.read_spec(*cart, DMA, address.0) + 256 * self.read_spec(
                *cart,
                DMA,
                ((address.0 + 1) % 0x10000) as u16,
            ),
    {
        let lo = self.read::<DMA, C>(cart, address);
        let hi = self.read::<DMA, C>(cart, address.wrapping_add(1));
        lo as Width + 256 * hi as Width
    }

    /// Whether `post` is `pre` after a CPU write of the little-endian word `w` at `a`: the low
    /// byte to `a`, then the high byte to the address after it.
    pub open spec fn word_written<C: Cartridge>(pre: Bus, post: Bus, pre_cart: C, post_cart: C, a: u16, w: u16) -> bool {
        exists|mid: Bus, mid_cart: C|
            #![trigger Bus::written(pre, mid, pre_cart, mid_cart, false, a, (w % 256) as u8)]
            {
                &&& Bus::written(pre, mid, pre_cart, mid_cart, false, a, (w % 256) as u8)
                &&& mid.wf()
                &&& Bus::written(mid, post, mid_cart, post_cart, false, ((a + 1) % 0x10000) as u16, (w / 256) as u8)
            }
    }

    /// A little-endian 16-bit write by the CPU: the low byte to `address`, then the high byte
    /// to the address after it.
    pub fn write_word<C: Cartridge>(&mut self, cart: &mut C, address: Address, value: u16)
        requires
            old(self).wf(),
        ensures
            final(self).wf(),
            Bus::word_written(*old(self), *final(self), *old(cart), *final(cart), address.0, value),
    {
        let ghost b0 = *self;
        let ghost c0 = *cart;
        self.write::<false, C>(cart, address, (value % 256) as u8);
        let ghost b1 = *self;
        let ghost c1 = *cart;
        self.write::<false, C>(cart, address.wrapping_add(1), (value / 256) as u8);
        assert(Bus::written(b0, b1, c0, c1, false, address.0, (value % 256) as u8) && b1.wf());
    }

    /// Brings every component back to its power-on state; attached consumers stay attached,
    /// with what they have not taken yet.
    pub fn reset(&mut self)
        ensures
            final(self).wf(),
            final(self).serial.output == old(self).serial.output,
            final(self).apu.samples == old(self).apu.samples,
            !final(self).dma.is_active_spec(),
            final(self).interrupts == Interrupts::new_spec(),
            final(self).cgb == Cgb::new_spec(),
            final(self).timer == Timer::new_spec(),
            final(self).joypad == Joypad::new_spec(),
            final(self).wram.bank == 1,
            forall|i: int| 0 <= i < 0x8000 ==> final(self).wram.data@[i] == 0,
            forall|i: int| 0 <= i < 0x7F ==> final(self).hram@[i] == 0,
            final(self).powered_on(),
            final(self).as_built(),
    {
        let serial_output = self.serial.output.take();
        let samples = self.apu.samples.take();
        *self = Self::new();
        self.serial.output = serial_output;
        self.apu.samples = samples;
    }

    /// Records a button press or release.
    pub fn update_input(&mut self, button: Controls, pressed: bool)
        ensures
            final(self).joypad.state == Joypad::updated_state(old(self).joypad.state, button, pressed),
            final(self).joypad.select == old(self).joypad.select,
            final(self).interrupts == (Interrupts {
                i: if pressed {
                    old(self).interrupts.i
                } else {
                    old(self).interrupts.i | crate::bus::joypad::INTERRUPT_BIT
                },
                ..old(self).interrupts
            }),
            final(self).wram == old(self).wram,
            final(self).ppu == old(self).ppu,
            final(self).hram == old(self).hram,
            final(self).timer == old(self).timer,
            final(self).apu == old(self).apu,
            final(self).serial == old(self).serial,
            final(self).cgb == old(self).cgb,
            final(self).dma == old(self).dma,
            final(self).cdma == old(self).cdma,
            final(self).ir == old(self).ir,
    {
        self.joypad.update(&mut self.interrupts.i, (button, pressed));
    }

    /// The bus after STOP: the divider cleared, and a prepared speed switch performed or else
    /// the CPU stopped.
    pub open spec fn stop_spec(self) -> Bus {
        Bus {
            timer: Timer { div: 0, internaldiv: 0, ..self.timer },
            cgb: if self.cgb.prepare_speed_switch {
                Cgb { prepare_speed_switch: false, double_speed: !self.cgb.double_speed, ..self.cgb }
            } else {
                self.cgb
            },
            interrupts: if self.cgb.prepare_speed_switch {
                self.interrupts
            } else {
                Interrupts { pause: crate::bus::interrupts::PauseState::Stop, ..self.interrupts }
            },
            ..self
        }
    }

    /// Executes STOP.
    pub fn stop(&mut self)
        requires
            old(self).wf(),
        ensures
            final(self).wf(),
            *final(self) == old(self).stop_spec(),
    {
        self.timer.reset_div();
        if !self.cgb.disarm() {
            self.interrupts.set_stop(true);
        }
    }
    /// Whether `post` is `pre` after the VRAM DMA's share of a CPU cycle `exec`: a general
    /// transfer copies one byte per T-cycle of the instruction, an HBLANK transfer one block of
    /// sixteen bytes (taking 32 T-cycles) while the PPU is in HBLANK; nothing happens while the CPU waits in HALT or STOP.
    #[verifier::opaque]
    pub open spec fn cdma_stepped<C: Cartridge>(pre: Bus, post: Bus, cart: C, exec: CycleExecution) -> bool {
        let waiting = exec.execution is Halt || exec.execution is Stop;
        if pre.cdma.transfer is Some && (!pre.cdma.transfer->0.hdma || pre.ppu.regs.mode_spec() == HBLANK)
            && !waiting {
            let t = pre.cdma.transfer->0;
            let bytes = if t.hdma {
                BLOCK_SIZE as int
            } else {
                exec.cycles.0 as int
            };
            let n = if bytes % 0x10000 < t.length - t.index {
                bytes % 0x10000
            } else {
                t.length - t.index
            };
            let end = t.index + n;
            let next = Transfer { index: end as u16, ..t };
            let cdma = if end >= t.length {
                Cdma { transfer: None, hdma5: 0xFF, ..pre.cdma }
            } else {
                Cdma { transfer: Some(next), hdma5: next.remaining_spec(), ..pre.cdma }
            };
            let mid = Bus { cdma, ..pre };
            &&& post == (Bus {
                ppu: Ppu { vram: Vram { memory: post.ppu.vram.memory, ..mid.ppu.vram }, ..mid.ppu },
                ..mid
            })
            &&& post.ppu.vram.memory@ == vram_copied(mid, cart, t.source, t.destination - 0x8000, t.index as int, end)
        } else {
            post == pre
        }
    }

    /// The T-cycles that the VRAM DMA's step took (none where it did not run).
    pub open spec fn cdma_cycles(pre: Bus, exec: CycleExecution) -> usize {
        let waiting = exec.execution is Halt || exec.execution is Stop;
        if pre.cdma.transfer is Some && (!pre.cdma.transfer->0.hdma || pre.ppu.regs.mode_spec() == HBLANK)
            && !waiting {
            if pre.cdma.transfer->0.hdma {
                32
            } else {
                exec.cycles.0
            }
        } else {
            0
        }
    }

    /// Runs the VRAM DMA for the CPU cycle `result`; returns the T-cycles it took.
    pub fn cdma_cycle<C: Cartridge>(&mut self, result: &CycleExecution, cart: &C) -> (r: Cycles)
        requires
            old(self).wf(),
        ensures
            final(self).wf(),
            Bus::cdma_stepped(*old(self), *final(self), *cart, *result),
            r.0 == Bus::cdma_cycles(*old(self), *result),
            final(self).cgb == old(self).cgb,
            final(self).timer == old(self).timer,
            final(self).ppu.regs == old(self).ppu.regs,
            final(self).ppu.clock == old(self).ppu.clock,
            final(self).apu == old(self).apu,
    {
        reveal(Bus::cdma_stepped);
        let mode = self.ppu.mode();
        let waiting = match result.execution {
            ExecutionType::Halt => true,
            ExecutionType::Stop => true,
            _ => false,
        };
        if let Some(transfer) = self.cdma.transfer {
            if (!transfer.hdma || mode == HBLANK) && !waiting {
                let cycles = if transfer.hdma {
                    Cycles(32)
                } else {
                    result.cycles
                };
                let source = transfer.source;
                let destination = transfer.destination - 0x8000;
                let start = transfer.index;
                let bytes: usize = if transfer.hdma {
                    BLOCK_SIZE as usize
                } else {
                    result.cycles.t()
                };
                let c16 = (bytes % 0x10000) as u16;
                let left = transfer.length - transfer.index;
                let end = transfer.index + if c16 < left {
                    c16
                } else {
                    left
                };
                if end >= transfer.length {
                    self.cdma.transfer = None;
                    self.cdma.hdma5 = 0xFF;
                } else {
                    let next = Transfer { index: end, ..transfer };
                    self.cdma.hdma5 = next.remaining();
                    self.cdma.transfer = Some(next);
                }
                let ghost mid = *self;
                let mut i = start;
                while i < end
                    invariant
                        start <= i <= end,
                        self.wf(),
                        destination <= 0x1FF0,
                        *self == (Bus {
                            ppu: Ppu {
                                vram: Vram { memory: self.ppu.vram.memory, ..mid.ppu.vram },
                                ..mid.ppu
                            },
                            ..mid
                        }),
                        self.ppu.vram.memory@ == vram_copied(
                            mid,
                            *cart,
                            source,
                            destination as int,
                            start as int,
                            i as int,
                        ),
                    decreases end - i,
                {
                    let address = Address::new(source).wrapping_add(i);
                    let value = self.read::<true, C>(cart, address);
                    proof {
                        lemma_read_with_memories(
                            *self,
                            mid,
                            *cart,
                            true,
                            address.0,
                            self.ppu.vram.memory@,
                            self.ppu.voam@,
                        );
                    }
                    let offset = (destination as usize + i as usize) % 0x2000;
                    let at = self.ppu.vram.bank(offset);
                    self.ppu.vram.write(at, value);
                    i = i + 1;
                }
                return cycles;
            }
        }
        Cycles(0)
    }

    /// Whether `post` is `pre` after `t` T-cycles of OAM DMA: one byte per T-cycle.
    #[verifier::opaque]
    pub open spec fn dma_stepped<C: Cartridge>(pre: Bus, post: Bus, cart: C, t: int) -> bool {
        if !pre.dma.is_active_spec() {
            post == pre
        } else {
            let end = if t >= LENGTH - pre.dma.clock {
                LENGTH as int
            } else {
                pre.dma.clock + t
            };
            let mid = Bus { dma: Dma { clock: end as u16, ..pre.dma }, ..pre };
            &&& post == (Bus { ppu: Ppu { voam: post.ppu.voam, ..mid.ppu }, ..mid })
            &&& post.ppu.voam@ == oam_copied(mid, cart, pre.dma.source.0, pre.dma.clock as int, end)
        }
    }

    /// Runs OAM DMA for `cycles`.
    pub fn cycle_dma<C: Cartridge>(&mut self, cycles: &Cycles, cart: &C)
        requires
            old(self).wf(),
        ensures
            final(self).wf(),
            Bus::dma_stepped(*old(self), *final(self), *cart, cycles.0 as int),
            final(self).apu == old(self).apu,
    {
        reveal(Bus::dma_stepped);
        if !self.dma.is_active() {
            return;
        }
        let start = self.dma.clock;
        let end: u16 = if cycles.t() >= (LENGTH - start) as usize {
            LENGTH
        } else {
            start + cycles.t() as u16
        };
        self.dma.clock = end;
        let ghost mid = *self;
        let mut index = start;
        while index < end
            invariant
                start <= index <= end <= LENGTH,
                self.wf(),
                *self == (Bus { ppu: Ppu { voam: self.ppu.voam, ..mid.ppu }, ..mid }),
                self.ppu.voam@ == oam_copied(mid, *cart, mid.dma.source.0, start as int, index as int),
            decreases end - index,
        {
            let address = self.dma.source.wrapping_add(index);
            let value = self.read::<true, C>(cart, address);
            proof {
                lemma_read_with_memories(
                    *self,
                    mid,
                    *cart,
                    true,
                    address.0,
                    self.ppu.vram.memory@,
                    self.ppu.voam@,
                );
            }
            self.ppu.voam.write(index as usize, value);
            index = index + 1;
        }
    }

    pub open spec fn timer_stepped(b1: Bus, b2: Bus, t: int) -> bool {
        &&& Timer::cycled(b1.timer, b2.timer, b1.interrupts, b2.interrupts, t)
        &&& b2 == Bus { timer: b2.timer, interrupts: b2.interrupts, ..b1 }
    }

    pub open spec fn ppu_stepped(b1: Bus, b2: Bus, t: int, render: bool) -> bool {
        &&& Ppu::cycled(b1.ppu, b2.ppu, b1.interrupts.i, b2.interrupts.i, b1.cgb, t, render)
        &&& b2 == Bus { ppu: b2.ppu, interrupts: Interrupts { i: b2.interrupts.i, ..b1.interrupts }, ..b1 }
    }

    pub open spec fn serial_stepped(b1: Bus, b2: Bus, t: usize) -> bool {
        &&& SerialState::cycled(b1.serial, b2.serial, b1.interrupts.i, b2.interrupts.i, t)
        &&& b2 == Bus {
            serial: b2.serial,
            interrupts: Interrupts { i: b2.interrupts.i, ..b1.interrupts },
            ..b1
        }
    }

    pub open spec fn apu_stepped(b1: Bus, b2: Bus, t: usize) -> bool {
        &&& APU::cycled(b1.apu, b2.apu, t)
        &&& b2 == Bus { apu: b2.apu, ..b1 }
    }

    /// Whether `b1` to `b5` are the stages from `pre` to `post` of the CPU cycle `exec`: VRAM
    /// DMA, then the timer, the PPU (at half the rate in double speed), OAM DMA, the serial
    /// port and the sound unit (at half the rate in double speed).
    pub open spec fn stages<C: Cartridge>(
        pre: Bus,
        b1: Bus,
        b2: Bus,
        b3: Bus,
        b4: Bus,
        b5: Bus,
        post: Bus,
        cart: C,
        exec: CycleExecution,
        render: bool,
    ) -> bool {
        let fast = exec.cycles.0;
        let slow = fast / if pre.cgb.double_speed {
            2usize
        } else {
            1usize
        };
        &&& Bus::cdma_stepped(pre, b1, cart, exec)
        &&& Bus::timer_stepped(b1, b2, fast as int)
        &&& Bus::ppu_stepped(b2, b3, slow as int, render)
        &&& Bus::dma_stepped(b3, b4, cart, fast as int)
        &&& Bus::serial_stepped(b4, b5, fast)
        &&& Bus::apu_stepped(b5, post, slow)
    }

    /// Whether `post` and `render` are what the CPU cycle `exec` makes of the rest of the
    /// machine.
    pub open spec fn cycled<C: Cartridge>(pre: Bus, post: Bus, cart: C, exec: CycleExecution, render: bool) -> bool {
        exists|b1: Bus, b2: Bus, b3: Bus, b4: Bus, b5: Bus|
            #[trigger] Bus::stages(pre, b1, b2, b3, b4, b5, post, cart, exec, render)
    }

    /// Whether the cycle counters of the timer, the PPU and the sound unit can count `cycles`
    /// more T-cycles (half as many for the PPU and the sound unit at double speed) without
    /// overflowing.
    pub open spec fn counters_fit(&self, cycles: usize) -> bool {
        let slow = if self.cgb.double_speed {
            cycles / 2
        } else {
            cycles
        };
        &&& self.timer.internaldiv + cycles <= u32::MAX
        &&& self.timer.enabled_spec() ==> self.timer.internalcnt + cycles <= u32::MAX
        &&& self.ppu.regs.lcdc_enabled_spec() ==> self.ppu.clock + slow <= usize::MAX
        &&& self.apu.frame_counter + slow <= usize::MAX
    }

    /// Runs everything but the CPU for the CPU cycle `result`; returns whether a frame was
    /// completed.
    pub fn cycle<C: Cartridge>(&mut self, cart: &C, result: &CycleExecution) -> (render: bool)
        requires
            old(self).wf(),
            old(self).counters_fit(result.cycles.0),
        ensures
            final(self).wf(),
            Bus::cycled(*old(self), *final(self), *cart, *result, render),
    {
        self.cdma_cycle(result, cart);
        let ghost b1 = *self;
        let fast = result.cycles;
        let slow = Cycles(fast.0 / if self.cgb.double_speed() {
            2
        } else {
            1
        });
        self.timer.cycle(&mut self.interrupts, &fast);
        let ghost b2 = *self;
        let render = self.ppu.cycle(&mut self.interrupts.i, &self.cgb, &slow);
        let ghost b3 = *self;
        self.cycle_dma(&fast, cart);
        let ghost b4 = *self;
        self.serial.cycle(&mut self.interrupts.i, &fast);
        let ghost b5 = *self;
        self.apu.cycle(&slow);
        proof {
            let slow_s = result.cycles.0 / if old(self).cgb.double_speed {
                2usize
            } else {
                1usize
            };
            assert(slow.0 == slow_s);
            assert(Bus::cdma_stepped(*old(self), b1, *cart, *result));
            assert(Bus::timer_stepped(b1, b2, fast.0 as int));
            assert(Bus::ppu_stepped(b2, b3, slow.0 as int, render));
            assert(Bus::dma_stepped(b3, b4, *cart, fast.0 as int));
            assert(Bus::serial_stepped(b4, b5, fast.0));
            assert(Bus::apu_stepped(b5, *self, slow.0));
            assert(Bus::stages(*old(self), b1, b2, b3, b4, b5, *self, *cart, *result, render));
        }
        render
    }
}

} // verus!

pub mod draw;
pub mod memory;
pub mod palette;
pub mod pixel;
pub mod registers;

use vstd::prelude::*;

use crate::bus::cgb::Cgb;
use crate::bus::ppu::draw::{
    bg_pixel, draw_background, draw_sprites, window_on_line, with_sprites, PrioType,
};
use crate::bus::ppu::memory::{Voam, Vram};
use crate::bus::ppu::pixel::Pixel;
use crate::bus::ppu::registers::{
    is_register_address, PpuRegisters, HBLANK, OAM, TRANSFER, VBLANK,
};
use crate::util::{Address, Memory};
use crate::Cycles;

verus! {

broadcast use vstd::array::group_array_axioms;

pub const SCREEN_WIDTH: usize = 160;

pub const SCREEN_HEIGHT: usize = 144;

/// CGB only: the VRAM bank select register.
pub const ADDRESS_VBK: u16 = 0xFF4F;

/// The frame: `SCREEN_WIDTH * SCREEN_HEIGHT` pixels, row by row.
pub type Framebuffer = Memory<23040, Pixel>;

/// The pixel processing unit: video memory, registers, timing and the frame being drawn.
pub struct Ppu {
    /// T-cycles spent in the present mode.
    pub clock: usize,
    pub vram: Vram,
    pub voam: Voam,
    pub regs: PpuRegisters,
    pub framebuffer: Framebuffer,
    /// The line of the window to draw next.
    pub window_line: u8,
}

/// The number of T-cycles that a mode lasts.
pub open spec fn mode_length(mode: u8) -> int {
    if mode == HBLANK {
        204
    } else if mode == VBLANK {
        456
    } else if mode == OAM {
        80
    } else {
        172
    }
}

/// The part of the PPU that its timing decides.
pub struct Timing {
    pub regs: PpuRegisters,
    pub flags: u8,
    pub clock: int,
    pub window_line: u8,
    pub render: bool,
    /// The picture, row by row.
    pub frame: Seq<Pixel>,
}

/// The picture with line `regs.ly` drawn.
pub open spec fn drawn(frame: Seq<Pixel>, regs: PpuRegisters, vram: Seq<u8>, voam: Seq<u8>, cgb: Cgb, window_line: u8) -> Seq<Pixel> {
    Seq::new(
        frame.len(),
        |i: int|
            if regs.ly * 160 <= i < regs.ly * 160 + 160 {
                line_pixel(regs, vram, voam, cgb, window_line, i - regs.ly * 160)
            } else {
                frame[i]
            },
    )
}

/// One mode change, where the clock has run through the present mode; the end of pixel
/// transfer draws the line.
pub open spec fn step(t: Timing, vram: Seq<u8>, voam: Seq<u8>, cgb: Cgb) -> Option<Timing> {
    let mode = t.regs.mode_spec();
    if t.clock < mode_length(mode) {
        None
    } else {
        let clock = t.clock - mode_length(mode);
        if mode == HBLANK {
            let (r, f) = t.regs.ly_updated(t.flags, ((t.regs.ly + 1) % 256) as u8);
            if r.ly == 144 {
                let (r2, f2) = r.mode_set(f, VBLANK);
                Some(Timing { regs: r2, flags: f2, clock, render: true, ..t })
            } else {
                let (r2, f2) = r.mode_set(f, OAM);
                Some(Timing { regs: r2, flags: f2, clock, ..t })
            }
        } else if mode == VBLANK {
            let (r, f) = t.regs.ly_updated(t.flags, ((t.regs.ly + 1) % 256) as u8);
            if r.ly >= 154 {
                let (r2, f2) = r.ly_updated(f, 0);
                let (r3, f3) = r2.mode_set(f2, OAM);
                Some(Timing { regs: r3, flags: f3, clock, window_line: 0, ..t })
            } else {
                Some(Timing { regs: r, flags: f, clock, ..t })
            }
        } else if mode == OAM {
            let (r, f) = t.regs.mode_set(t.flags, TRANSFER);
            Some(Timing { regs: r, flags: f, clock, ..t })
        } else {
            let window_line = if t.regs.ly < 144 && window_on_line(t.regs) {
                ((t.window_line + 1) % 256) as u8
            } else {
                t.window_line
            };
            let frame = if t.regs.ly < 144 {
                drawn(t.frame, t.regs, vram, voam, cgb, t.window_line)
            } else {
                t.frame
            };
            let (r, f) = t.regs.mode_set(t.flags, HBLANK);
            Some(Timing { regs: r, flags: f, clock, window_line, frame, ..t })
        }
    }
}

/// The timing once every mode that the clock has run through has passed.
pub open spec fn run(t: Timing, vram: Seq<u8>, voam: Seq<u8>, cgb: Cgb) -> Timing
    decreases t.clock,
{
    match step(t, vram, voam, cgb) {
        Some(n) => if n.clock < t.clock && n.clock >= 0 {
            run(n, vram, voam, cgb)
        } else {
            t
        },
        None => t,
    }
}

/// The colour shown where neither background nor objects are drawn: colour 0 of background
/// palette 0.
pub open spec fn backdrop(regs: PpuRegisters, cgb: Cgb) -> Pixel {
    if cgb.enabled {
        Pixel::rgb_spec(regs.bcp.color_spec(0, 0))
    } else {
        Pixel::monochrome_spec(regs.bgp, 0)
    }
}

/// The background priority of each column of the line.
pub open spec fn line_priorities(regs: PpuRegisters, vram: Seq<u8>, cgb: Cgb, window_line: u8) -> Seq<
    PrioType,
> {
    Seq::new(
        160,
        |x: int|
            match bg_pixel(regs, vram, cgb, window_line, x) {
                Some((_, prio)) => prio,
                None => PrioType::Color0,
            },
    )
}

/// The pixel at column `x` of line LY, with the window's line counter at `window_line`.
pub open spec fn line_pixel(
    regs: PpuRegisters,
    vram: Seq<u8>,
    voam: Seq<u8>,
    cgb: Cgb,
    window_line: u8,
    x: int,
) -> Pixel {
    let bg = match bg_pixel(regs, vram, cgb, window_line, x) {
        Some((p, _)) => p,
        None => backdrop(regs, cgb),
    };
    with_sprites(regs, vram, voam, cgb, line_priorities(regs, vram, cgb, window_line), bg, x)
}

impl Ppu {
    pub fn new() -> (r: Self)
        ensures
            r.wf(),
            r.clock == 0,
            r.window_line == 0,
            r.regs.lcdc == 0x91 && r.regs.stat == 0x85 && r.regs.ly == 0,
            r.regs.powered_on(),
            forall|i: int| 0 <= i < 23040 ==> (#[trigger] r.framebuffer@[i]).rgb@ == seq![0u8, 0u8, 0u8],
            forall|i: int| 0 <= i < 0x4000 ==> r.vram.memory@[i] == 0,
            forall|i: int| 0 <= i < 0xA0 ==> r.voam@[i] == 0,
            !r.vram.bank,
    {
        Self {
            clock: 0,
            vram: Vram::new(),
            voam: Memory::new(),
            regs: PpuRegisters::new(),
            framebuffer: Memory::new_filled(Pixel::black()),
            window_line: 0,
        }
    }

    /// The memories have their sizes.
    pub open spec fn wf_memory(&self) -> bool {
        &&& self.vram.wf()
        &&& self.voam.wf()
        &&& self.framebuffer.wf()
    }

    pub open spec fn wf(&self) -> bool {
        self.wf_memory() && self.clock < 456
    }

    pub open spec fn timing(&self, flags: u8) -> Timing {
        Timing {
            regs: self.regs,
            flags,
            clock: self.clock as int,
            window_line: self.window_line,
            render: false,
            frame: self.framebuffer@,
        }
    }

    /// Where the CPU's access to OAM lands: nowhere while the PPU scans OAM or transfers
    /// pixels, except for DMA.
    pub open spec fn voam_map_spec(&self, dma: bool, address: u16) -> Option<int> {
        if dma || self.regs.mode_spec() == VBLANK || self.regs.mode_spec() == HBLANK {
            Some(address - 0xFE00)
        } else {
            None
        }
    }

    fn voam_map<const DMA: bool>(&self, address: &Address) -> (r: Option<usize>)
        requires
            0xFE00 <= address.0 <= 0xFE9F,
        ensures
            (match r {
                Some(i) => Some(i as int),
                None => None,
            }) == self.voam_map_spec(DMA, address.0),
    {
        if DMA || self.mode() == VBLANK || self.mode() == HBLANK {
            Some(address.index() - 0xFE00)
        } else {
            None
        }
    }

    /// Whether an address belongs to the PPU.
    pub open spec fn is_ppu_address(a: u16) -> bool {
        a == ADDRESS_VBK || (0x8000 <= a <= 0x9FFF) || (0xFE00 <= a <= 0xFE9F)
            || is_register_address(a)
    }

    pub open spec fn read_spec(&self, dma: bool, a: u16, cgb: Cgb) -> u8 {
        self.read_spec_with(dma, a, cgb, self.vram.memory@, self.voam@)
    }

    /// What a read of `a` gives with VRAM holding `vram` and OAM holding `oam`.
    pub open spec fn read_spec_with(&self, dma: bool, a: u16, cgb: Cgb, vram: Seq<u8>, oam: Seq<u8>) -> u8 {
        if a == ADDRESS_VBK {
            if self.vram.bank {
                0xFF
            } else {
                0xFE
            }
        } else if 0x8000 <= a <= 0x9FFF {
            match self.vram.map_spec(dma, self.regs, a) {
                Some(i) => vram[i],
                None => 0xFF,
            }
        } else if 0xFE00 <= a <= 0xFE9F {
            match self.voam_map_spec(dma, a) {
                Some(i) => oam[i],
                None => 0xFF,
            }
        } else {
            self.regs.read_spec(cgb, a)
        }
    }

    pub fn read<const DMA: bool>(&self, address: &Address, cgb: &Cgb) -> (r: u8)
        requires
            self.wf(),
            Ppu::is_ppu_address(address.0),
        ensures
            r == self.read_spec(DMA, address.0, *cgb),
    {
        let a = address.value();
        if a == ADDRESS_VBK {
            if self.vram.bank {
                0xFF
            } else {
                0xFE
            }
        } else if 0x8000 <= a && a <= 0x9FFF {
            match self.vram.map::<DMA>(&self.regs, address) {
                Some(index) => self.vram.read(index),
                None => 0xFF,
            }
        } else if 0xFE00 <= a && a <= 0xFE9F {
            match self.voam_map::<DMA>(address) {
                Some(index) => self.voam.read(index),
                None => 0xFF,
            }
        } else {
            self.regs.read(cgb, address)
        }
    }

    /// Whether `post` is the PPU after a write of `value` to `a` in `pre`.
    pub open spec fn written(pre: Ppu, post: Ppu, dma: bool, cgb: Cgb, a: u16, value: u8) -> bool {
        &&& post.framebuffer == pre.framebuffer
        &&& post.vram.bank == if a == ADDRESS_VBK && cgb.enabled {
            value & 1 != 0
        } else {
            pre.vram.bank
        }
        &&& post.vram.memory@ == if 0x8000 <= a <= 0x9FFF {
            match pre.vram.map_spec(dma, pre.regs, a) {
                Some(i) => pre.vram.memory@.update(i, value),
                None => pre.vram.memory@,
            }
        } else {
            pre.vram.memory@
        }
        &&& post.voam@ == if 0xFE00 <= a <= 0xFE9F {
            match pre.voam_map_spec(dma, a) {
                Some(i) => pre.voam@.update(i, value),
                None => pre.voam@,
            }
        } else {
            pre.voam@
        }
        &&& if is_register_address(a) {
            let (regs, toggled) = pre.regs.write_spec(cgb, a, value);
            &&& post.regs == regs
            &&& post.clock == if toggled {
                0
            } else {
                pre.clock
            }
            &&& post.window_line == if toggled {
                0
            } else {
                pre.window_line
            }
        } else {
            &&& post.regs == pre.regs
            &&& post.clock == pre.clock
            &&& post.window_line == pre.window_line
        }
    }

    /// A write by the CPU (or DMA) to a PPU address; the VRAM bank select (VBK) is a register
    /// of colour mode only and ignores writes outside it.
    pub fn write<const DMA: bool>(&mut self, cgb: &Cgb, address: &Address, value: u8)
        requires
            old(self).wf(),
            Ppu::is_ppu_address(address.0),
        ensures
            final(self).wf(),
            Ppu::written(*old(self), *final(self), DMA, *cgb, address.0, value),
    {
        let a = address.value();
        if a == ADDRESS_VBK {
            if cgb.enabled() {
                self.vram.bank = value & 1 != 0;
            }
        } else if 0x8000 <= a && a <= 0x9FFF {
            if let Some(index) = self.vram.map::<DMA>(&self.regs, address) {
                self.vram.write(index, value);
            }
        } else if 0xFE00 <= a && a <= 0xFE9F {
            if let Some(index) = self.voam_map::<DMA>(address) {
                self.voam.write(index, value);
            }
        } else {
            if self.regs.write(cgb, address, value) {
                self.clock = 0;
                self.window_line = 0;
            }
        }
    }

    /// Draws line LY: background and window, then objects.
    fn draw(&mut self, cgb: &Cgb)
        requires
            old(self).wf_memory(),
            old(self).regs.ly < 144,
        ensures
            final(self).wf_memory(),
            final(self).clock == old(self).clock,
            final(self).regs == old(self).regs,
            final(self).vram == old(self).vram,
            final(self).voam == old(self).voam,
            final(self).window_line == if window_on_line(old(self).regs) {
                ((old(self).window_line + 1) % 256) as u8
            } else {
                old(self).window_line
            },
            forall|i: int|
                0 <= i < 23040 && (i < old(self).regs.ly * 160 || i >= old(self).regs.ly * 160
                    + 160) ==> final(self).framebuffer@[i] == old(self).framebuffer@[i],
            forall|x: int|
                0 <= x < 160 ==> final(self).framebuffer@[old(self).regs.ly * 160 + x]
                    == #[trigger] line_pixel(
                    old(self).regs,
                    old(self).vram.memory@,
                    old(self).voam@,
                    *cgb,
                    old(self).window_line,
                    x,
                ),
    {
        let ghost wl0 = self.window_line;
        let backdrop = if cgb.enabled() {
            Pixel::rgb(&self.regs.bcp.color(0, 0))
        } else {
            Pixel::monochrome(self.regs.bgp, 0)
        };
        let mut line = [backdrop; 160];
        let bgprio = draw_background(&self.regs, &self.vram, cgb, &mut self.window_line, &mut line);
        assert(bgprio@ =~= line_priorities(self.regs, self.vram.memory@, *cgb, wl0));
        draw_sprites(&self.regs, &self.vram, &self.voam, cgb, &bgprio, &mut line);
        assert(forall|x: int| 0 <= x < 160 ==> line[x] == #[trigger] line_pixel(self.regs, self.vram.memory@, self.voam@, *cgb, wl0, x));
        let start = self.regs.ly as usize * SCREEN_WIDTH;
        let ghost fb0 = self.framebuffer@;
        let mut x: usize = 0;
        while x < SCREEN_WIDTH
            invariant
                x <= 160,
                start == self.regs.ly * 160,
                self.regs.ly < 144,
                self.framebuffer.wf(),
                fb0.len() == 23040,
                self.clock == old(self).clock,
                self.regs == old(self).regs,
                self.vram == old(self).vram,
                self.voam == old(self).voam,
                self.window_line == if window_on_line(old(self).regs) {
                    ((old(self).window_line + 1) % 256) as u8
                } else {
                    old(self).window_line
                },
                forall|i: int|
                    0 <= i < 23040 && (i < start || i >= start + x) ==> self.framebuffer@[i]
                        == fb0[i],
                forall|j: int|
                    0 <= j < x ==> self.framebuffer@[start + j] == #[trigger] line_pixel(
                        old(self).regs,
                        old(self).vram.memory@,
                        old(self).voam@,
                        *cgb,
                        wl0,
                        j,
                    ),
                forall|j: int|
                    0 <= j < 160 ==> line[j] == #[trigger] line_pixel(
                        old(self).regs,
                        old(self).vram.memory@,
                        old(self).voam@,
                        *cgb,
                        wl0,
                        j,
                    ),
            decreases 160 - x,
        {
            self.framebuffer.write(start + x, line[x]);
            x = x + 1;
        }
    }

    /// Whether `post`, `post_flags` and `render` are what `cycles` T-cycles make of the PPU
    /// `pre` and the interrupt flags `pre_flags`.
    #[verifier::opaque]
    pub open spec fn cycled(pre: Ppu, post: Ppu, pre_flags: u8, post_flags: u8, cgb: Cgb, cycles: int, render: bool) -> bool {
        &&& post.vram == pre.vram
        &&& post.voam == pre.voam
        &&& !pre.regs.lcdc_enabled_spec() ==> {
            &&& !render
            &&& post.clock == pre.clock
            &&& post.regs == pre.regs
            &&& post.window_line == pre.window_line
            &&& post.framebuffer == pre.framebuffer
            &&& post_flags == pre_flags
        }
        &&& pre.regs.lcdc_enabled_spec() ==> {
            let t = run(
                Timing { clock: pre.clock + cycles, ..pre.timing(pre_flags) },
                pre.vram.memory@,
                pre.voam@,
                cgb,
            );
            &&& post.regs == t.regs
            &&& post.framebuffer@ == t.frame
            &&& post_flags == t.flags
            &&& post.clock == t.clock
            &&& post.window_line == t.window_line
            &&& render == t.render
        }
    }

    /// Runs the PPU for `cycles`; returns whether a frame was completed (VBLANK was entered).
    pub fn cycle(&mut self, flags: &mut u8, cgb: &Cgb, cycles: &Cycles) -> (render: bool)
        requires
            old(self).wf(),
            old(self).regs.lcdc_enabled_spec() ==> old(self).clock + cycles.0 <= usize::MAX,
        ensures
            final(self).wf(),
            Ppu::cycled(*old(self), *final(self), *old(flags), *final(flags), *cgb, cycles.0 as int, render),
    {
        reveal(Ppu::cycled);
        if !self.regs.lcdc_enabled() {
            return false;
        }
        let mut render = false;
        self.clock = self.clock + cycles.t();
        let ghost start = Timing {
            regs: self.regs,
            flags: *flags,
            clock: self.clock as int,
            window_line: self.window_line,
            render: false,
            frame: self.framebuffer@,
        };
        let ghost vram0 = self.vram;
        let ghost voam0 = self.voam;
        loop
            invariant
                self.vram.wf(),
                self.voam.wf(),
                self.framebuffer.wf(),
                self.vram == vram0,
                self.voam == voam0,
                run(
                    Timing {
                        regs: self.regs,
                        flags: *flags,
                        clock: self.clock as int,
                        window_line: self.window_line,
                        render,
                        frame: self.framebuffer@,
                    },
                    vram0.memory@,
                    voam0@,
                    *cgb,
                ) == run(start, vram0.memory@, voam0@, *cgb),
            ensures
                self.vram.wf(),
                self.voam.wf(),
                self.framebuffer.wf(),
                self.vram == vram0,
                self.voam == voam0,
                self.clock < 456,
                (Timing {
                    regs: self.regs,
                    flags: *flags,
                    clock: self.clock as int,
                    window_line: self.window_line,
                    render,
                    frame: self.framebuffer@,
                }) == run(start, vram0.memory@, voam0@, *cgb),
            decreases self.clock,
        {
            let ghost cur = Timing {
                regs: self.regs,
                flags: *flags,
                clock: self.clock as int,
                window_line: self.window_line,
                render,
                frame: self.framebuffer@,
            };
            let mode = self.mode();
            if mode == HBLANK && self.clock >= 204 {
                self.clock = self.clock - 204;
                let next = self.regs.ly.wrapping_add(1);
                self.regs.update_ly(flags, next);
                if self.regs.ly == SCREEN_HEIGHT as u8 {
                    self.regs.set_mode(flags, VBLANK);
                    render = true;
                } else {
                    self.regs.set_mode(flags, OAM);
                }
            } else if mode == VBLANK && self.clock >= 456 {
                self.clock = self.clock - 456;
                let next = self.regs.ly.wrapping_add(1);
                self.regs.update_ly(flags, next);
                if self.regs.ly >= SCREEN_HEIGHT as u8 + 10 {
                    self.regs.update_ly(flags, 0);
                    self.window_line = 0;
                    self.regs.set_mode(flags, OAM);
                }
            } else if mode == OAM && self.clock >= 80 {
                self.clock = self.clock - 80;
                self.regs.set_mode(flags, TRANSFER);
            } else if mode == TRANSFER && self.clock >= 172 {
                self.clock = self.clock - 172;
                if self.regs.ly < SCREEN_HEIGHT as u8 {
                    let ghost before = *self;
                    self.draw(cgb);
                    assert(self.framebuffer@ =~= drawn(
                        before.framebuffer@,
                        before.regs,
                        vram0.memory@,
                        voam0@,
                        *cgb,
                        before.window_line,
                    ));
                }
                self.regs.set_mode(flags, HBLANK);
            } else {
                proof {
                    assert(step(cur, vram0.memory@, voam0@, *cgb) is None);
                }
                break;
            }
            proof {
                let n = Timing {
                    regs: self.regs,
                    flags: *flags,
                    clock: self.clock as int,
                    window_line: self.window_line,
                    render,
                    frame: self.framebuffer@,
                };
                assert(step(cur, vram0.memory@, voam0@, *cgb) == Some(n));
                assert(run(cur, vram0.memory@, voam0@, *cgb) == run(n, vram0.memory@, voam0@, *cgb));
            }
        }
        render
    }

    pub fn vram_slice(&self) -> (r: &[u8])
        ensures
            r@ == self.vram.memory@,
    {
        self.vram.memory.as_slice()
    }

    pub fn ly(&self) -> (r: u8)
        ensures
            r == self.regs.ly,
    {
        self.regs.ly
    }

    pub fn clock(&self) -> (r: usize)
        ensures
            r == self.clock,
    {
        self.clock
    }

    pub fn framebuffer(&self) -> (r: &[Pixel])
        ensures
            r@ == self.framebuffer@,
    {
        self.framebuffer.as_slice()
    }

    pub fn lcdc(&self) -> (r: u8)
        ensures
            r == self.regs.lcdc,
    {
        self.regs.lcdc
    }

    pub fn stat(&self) -> (r: u8)
        ensures
            r == self.regs.stat,
    {
        self.regs.stat
    }

    pub fn mode(&self) -> (r: u8)
        ensures
            r == self.regs.mode_spec(),
            r <= 3,
    {
        self.regs.mode()
    }
}

} // verus!

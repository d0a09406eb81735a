use vstd::prelude::*;

use crate::bus::cgb::Cgb;
use crate::bus::ppu::memory::{Voam, Vram, VRAM_BANK_SIZE};
use crate::bus::ppu::pixel::Pixel;
use crate::bus::ppu::registers::{
    PpuRegisters, LCDC_BG, LCDC_BG_MAP, LCDC_OBJ, LCDC_OBJ_SIZE, LCDC_TILE_DATA, LCDC_WINDOW,
    LCDC_WINDOW_MAP,
};

verus! {

broadcast use vstd::array::group_array_axioms;

/// The width of the screen in pixels.
pub const SCREEN_WIDTH: usize = 160;

/// How a background pixel ranks against objects.
#[derive(Clone, Copy, Debug, PartialEq, Eq, Structural)]
pub enum PrioType {
    /// Colour 0, or background priority switched off: objects are drawn over it.
    Color0,
    /// The tile attribute asks for the background to stay on top (CGB).
    PrioFlag,
    /// An ordinary background pixel.
    Normal,
}

/// Whether the background is drawn at all (in CGB mode LCDC bit 0 only sets priority).
pub open spec fn bg_display(regs: PpuRegisters, cgb: Cgb) -> bool {
    cgb.enabled || regs.lcdc & LCDC_BG != 0
}

/// Whether non-zero background colours may hide objects.
pub open spec fn bg_priority(regs: PpuRegisters, cgb: Cgb) -> bool {
    !cgb.enabled || regs.lcdc & LCDC_BG != 0
}

/// Whether column `x` of the current line shows the window.
pub open spec fn use_window(regs: PpuRegisters, x: int) -> bool {
    &&& regs.lcdc & LCDC_WINDOW != 0
    &&& regs.ly >= regs.wy
    &&& x + 7 >= regs.wx
    &&& regs.wx <= 166
}

/// Whether the current line shows the window somewhere.
pub open spec fn window_on_line(regs: PpuRegisters) -> bool {
    regs.lcdc & LCDC_WINDOW != 0 && regs.ly >= regs.wy && regs.wx <= 166
}

/// The tile map, and the pixel coordinates within it, that column `x` shows.
pub open spec fn map_position(regs: PpuRegisters, window_line: u8, x: int) -> (int, int, int) {
    if use_window(regs, x) {
        (
            if regs.lcdc & LCDC_WINDOW_MAP != 0 {
                0x1C00int
            } else {
                0x1800int
            },
            x + 7 - regs.wx,
            window_line as int,
        )
    } else {
        (
            if regs.lcdc & LCDC_BG_MAP != 0 {
                0x1C00int
            } else {
                0x1800int
            },
            x + regs.scx,
            regs.ly + regs.scy,
        )
    }
}

/// Where in VRAM the tile map entry for a map pixel lies.
pub open spec fn tile_map_entry(map_base: int, px: int, py: int) -> int {
    map_base + ((py / 8) % 32) * 32 + (px / 8) % 32
}

/// Where in VRAM the sixteen bytes of a tile lie, by the addressing mode that LCDC selects.
pub open spec fn tile_data_address(lcdc: u8, tile_index: u8) -> int {
    if lcdc & LCDC_TILE_DATA != 0 {
        tile_index as int * 16
    } else if tile_index < 128 {
        0x1000 + tile_index as int * 16
    } else {
        0x1000 - (256 - tile_index as int) * 16
    }
}

/// The colour number (0 to 3) of bit `bit` of a tile row stored as the byte pair `lo`, `hi`.
pub open spec fn color_number(lo: u8, hi: u8, bit: u8) -> u8 {
    ((lo >> bit) & 1) | (((hi >> bit) & 1) << 1u8)
}

/// The tile attributes of a map entry: palette, x flip, y flip, priority, VRAM bank 1.
pub open spec fn tile_attributes(vram: Seq<u8>, cgb: Cgb, entry: int) -> (u8, bool, bool, bool, bool) {
    if cgb.enabled {
        let flags = vram[entry + 0x2000];
        (flags & 0x07, flags & 0x20 != 0, flags & 0x40 != 0, flags & 0x80 != 0, flags & 0x08 != 0)
    } else {
        (0, false, false, false, false)
    }
}

/// The colour number, palette and priority attribute of background column `x`.
pub open spec fn bg_color(
    regs: PpuRegisters,
    vram: Seq<u8>,
    cgb: Cgb,
    window_line: u8,
    x: int,
) -> (u8, u8, bool) {
    let (map_base, px, py) = map_position(regs, window_line, x);
    let entry = tile_map_entry(map_base, px, py);
    let (palnr, xflip, yflip, priority, bank1) = tile_attributes(vram, cgb, entry);
    let tile = tile_data_address(regs.lcdc, vram[entry]) + if bank1 {
        0x2000int
    } else {
        0
    };
    let sx = if xflip {
        7 - px % 8
    } else {
        px % 8
    };
    let sy = if yflip {
        7 - py % 8
    } else {
        py % 8
    };
    let row = tile + sy * 2;
    (color_number(vram[row], vram[row + 1], (7 - sx) as u8), palnr, priority)
}

/// The pixel and priority that background column `x` gets, or `None` where it is not drawn.
pub open spec fn bg_pixel(
    regs: PpuRegisters,
    vram: Seq<u8>,
    cgb: Cgb,
    window_line: u8,
    x: int,
) -> Option<(Pixel, PrioType)> {
    if !bg_display(regs, cgb) && !use_window(regs, x) {
        None
    } else {
        let (col, palnr, priority) = bg_color(regs, vram, cgb, window_line, x);
        let prio = if !bg_priority(regs, cgb) || col == 0 {
            PrioType::Color0
        } else if cgb.enabled && priority {
            PrioType::PrioFlag
        } else {
            PrioType::Normal
        };
        let pixel = if cgb.enabled {
            Pixel::rgb_spec(regs.bcp.color_spec(palnr, col))
        } else {
            Pixel::monochrome_spec(regs.bgp, col)
        };
        Some((pixel, prio))
    }
}

fn bit_of(lo: u8, hi: u8, bit: u8) -> (r: u8)
    requires
        bit < 8,
    ensures
        r == color_number(lo, hi, bit),
        r < 4,
{
    proof {
        assert(((lo >> bit) & 1) | (((hi >> bit) & 1) << 1u8) < 4) by (bit_vector)
            requires
                bit < 8,
        ;
    }
    ((lo >> bit) & 1) | (((hi >> bit) & 1) << 1u8)
}

fn map_position_at(regs: &PpuRegisters, window_line: u8, x: u16) -> (r: (usize, usize, usize))
    requires
        x < 160,
    ensures
        (r.0 as int, r.1 as int, r.2 as int) == map_position(*regs, window_line, x as int),
        r.0 == 0x1800 || r.0 == 0x1C00,
        r.1 < 512,
        r.2 < 512,
{
    if regs.lcdc & LCDC_WINDOW != 0 && regs.ly >= regs.wy && x + 7 >= regs.wx as u16 && regs.wx
        <= 166 {
        (
            if regs.lcdc & LCDC_WINDOW_MAP != 0 {
                0x1C00
            } else {
                0x1800
            },
            (x + 7 - regs.wx as u16) as usize,
            window_line as usize,
        )
    } else {
        (
            if regs.lcdc & LCDC_BG_MAP != 0 {
                0x1C00
            } else {
                0x1800
            },
            (x + regs.scx as u16) as usize,
            (regs.ly as u16 + regs.scy as u16) as usize,
        )
    }
}

fn tile_entry_at(map_base: usize, px: usize, py: usize) -> (r: usize)
    requires
        map_base == 0x1800 || map_base == 0x1C00,
        px < 512,
        py < 512,
    ensures
        r == tile_map_entry(map_base as int, px as int, py as int),
        r < 0x2000,
{
    map_base + ((py / 8) % 32) * 32 + (px / 8) % 32
}

fn tile_attributes_at(vram: &Vram, cgb: &Cgb, entry: usize) -> (r: (u8, bool, bool, bool, bool))
    requires
        vram.wf(),
        entry < 0x2000,
    ensures
        r == tile_attributes(vram.memory@, *cgb, entry as int),
        r.0 < 8,
{
    if cgb.enabled() {
        let flags = vram.read(entry + VRAM_BANK_SIZE);
        proof {
            assert(flags & 0x07 < 8) by (bit_vector);
        }
        (flags & 0x07, flags & 0x20 != 0, flags & 0x40 != 0, flags & 0x80 != 0, flags & 0x08 != 0)
    } else {
        (0, false, false, false, false)
    }
}

fn tile_data_at(lcdc: u8, tile_index: u8) -> (r: usize)
    ensures
        r == tile_data_address(lcdc, tile_index),
        r <= 0x17F0,
{
    if lcdc & LCDC_TILE_DATA != 0 {
        tile_index as usize * 16
    } else if tile_index < 128 {
        0x1000 + tile_index as usize * 16
    } else {
        0x1000 - (256 - tile_index as usize) * 16
    }
}

fn bg_color_at(regs: &PpuRegisters, vram: &Vram, cgb: &Cgb, window_line: u8, x: u16) -> (r: (
    u8,
    u8,
    bool,
))
    requires
        vram.wf(),
        x < 160,
    ensures
        r == bg_color(*regs, vram.memory@, *cgb, window_line, x as int),
        r.0 < 4,
        r.1 < 8,
{
    let (map_base, px, py) = map_position_at(regs, window_line, x);
    let entry = tile_entry_at(map_base, px, py);
    let (palnr, xflip, yflip, priority, bank1) = tile_attributes_at(vram, cgb, entry);
    let tile: usize = tile_data_at(regs.lcdc, vram.read(entry)) + if bank1 {
        VRAM_BANK_SIZE
    } else {
        0
    };
    let sx: usize = if xflip {
        7 - px % 8
    } else {
        px % 8
    };
    let sy: usize = if yflip {
        7 - py % 8
    } else {
        py % 8
    };
    let row = tile + sy * 2;
    let lo = vram.read(row);
    let hi = vram.read(row + 1);
    (bit_of(lo, hi, (7 - sx) as u8), palnr, priority)
}

fn bg_pixel_at(regs: &PpuRegisters, vram: &Vram, cgb: &Cgb, window_line: u8, x: u16) -> (r: Option<
    (Pixel, PrioType),
>)
    requires
        vram.wf(),
        x < 160,
    ensures
        r == bg_pixel(*regs, vram.memory@, *cgb, window_line, x as int),
{
    let bg_enable = regs.lcdc & LCDC_BG != 0;
    let use_window = regs.lcdc & LCDC_WINDOW != 0 && regs.ly >= regs.wy && x + 7 >= regs.wx as u16
        && regs.wx <= 166;
    if !(cgb.enabled() || bg_enable) && !use_window {
        return None;
    }
    let (col, palnr, priority) = bg_color_at(regs, vram, cgb, window_line, x);
    let prio = if !(!cgb.enabled() || bg_enable) || col == 0 {
        PrioType::Color0
    } else if cgb.enabled() && priority {
        PrioType::PrioFlag
    } else {
        PrioType::Normal
    };
    let pixel = if cgb.enabled() {
        Pixel::rgb(&regs.bcp.color(palnr, col))
    } else {
        Pixel::monochrome(regs.bgp, col)
    };
    Some((pixel, prio))
}

/// Draws the background and window of line LY into `line` and returns the priority of each
/// column; advances the window's line counter where the window was drawn.
pub fn draw_background(
    regs: &PpuRegisters,
    vram: &Vram,
    cgb: &Cgb,
    window_line: &mut u8,
    line: &mut [Pixel; 160],
) -> (bgprio: [PrioType; 160])
    requires
        vram.wf(),
    ensures
        forall|x: int|
            0 <= x < 160 ==> match #[trigger] bg_pixel(*regs, vram.memory@, *cgb, *old(window_line), x) {
                Some((p, prio)) => final(line)[x] == p && bgprio[x] == prio,
                None => final(line)[x] == old(line)[x] && bgprio[x] == PrioType::Color0,
            },
        *final(window_line) == if window_on_line(*regs) {
            ((*old(window_line) + 1) % 256) as u8
        } else {
            *old(window_line)
        },
{
    let ghost line0 = *line;
    let wl = *window_line;
    let mut bgprio = [PrioType::Color0; 160];
    let mut x: u16 = 0;
    while x < 160
        invariant
            x <= 160,
            vram.wf(),
            forall|j: int|
                0 <= j < x ==> match #[trigger] bg_pixel(*regs, vram.memory@, *cgb, wl, j) {
                    Some((p, prio)) => line[j] == p && bgprio[j] == prio,
                    None => line[j] == line0[j] && bgprio[j] == PrioType::Color0,
                },
            forall|j: int| x <= j < 160 ==> line[j] == line0[j] && bgprio[j] == PrioType::Color0,
        decreases 160 - x,
    {
        match bg_pixel_at(regs, vram, cgb, wl, x) {
            Some((pixel, prio)) => {
                bgprio[x as usize] = prio;
                line[x as usize] = pixel;
            },
            None => {},
        }
        x = x + 1;
    }
    if regs.lcdc & LCDC_WINDOW != 0 && regs.ly >= regs.wy && regs.wx <= 166 {
        *window_line = wl.wrapping_add(1);
    }
    bgprio
}

/// An object (sprite) taken from OAM.
#[derive(Clone, Copy, Debug)]
pub struct Sprite {
    pub x: i16,
    pub y: i16,
    pub tile: u8,
    pub attrs: u8,
    pub oam_index: usize,
}

/// The height of objects: 16 pixels where LCDC selects tall objects, else 8.
pub open spec fn sprite_size(regs: PpuRegisters) -> int {
    if regs.lcdc & LCDC_OBJ_SIZE != 0 {
        16
    } else {
        8
    }
}

/// OAM entry `i` as an object.
pub open spec fn sprite_at(oam: Seq<u8>, i: int) -> Sprite {
    Sprite {
        y: (oam[4 * i] - 16) as i16,
        x: (oam[4 * i + 1] - 8) as i16,
        tile: oam[4 * i + 2],
        attrs: oam[4 * i + 3],
        oam_index: i as usize,
    }
}

/// Whether an object of height `size` covers line `ly`.
pub open spec fn covers_line(s: Sprite, ly: u8, size: int) -> bool {
    ly >= s.y && ly < s.y + size
}

/// The objects among the first `n` OAM entries that cover line `ly`, in OAM order,
/// at most ten of them.
pub open spec fn selected(oam: Seq<u8>, ly: u8, size: int, n: nat) -> Seq<Sprite>
    decreases n,
{
    if n == 0 {
        seq![]
    } else {
        let prev = selected(oam, ly, size, (n - 1) as nat);
        let s = sprite_at(oam, n - 1);
        if prev.len() < 10 && covers_line(s, ly, size) {
            prev.push(s)
        } else {
            prev
        }
    }
}

/// The drawing priority of an object: the lower, the more it is in front. Without colour,
/// the leftmost object wins and then the one first in OAM; in colour mode the one first in OAM.
pub open spec fn priority_key(s: Sprite, cgb: Cgb) -> int {
    if cgb.enabled {
        s.oam_index as int
    } else {
        s.x as int * 64 + s.oam_index as int
    }
}

/// The VRAM address of the tile row of object `s` that line LY shows.
pub open spec fn sprite_row_address(regs: PpuRegisters, cgb: Cgb, s: Sprite) -> int {
    let size = sprite_size(regs);
    let dy = regs.ly - s.y;
    let tiley = if s.attrs & 0x40 != 0 {
        size - 1 - dy
    } else {
        dy
    };
    let tile = if size == 16 {
        s.tile & 0xFE
    } else {
        s.tile
    };
    tile as int * 16 + tiley * 2 + if s.attrs & 0x08 != 0 && cgb.enabled {
        0x2000int
    } else {
        0
    }
}

/// The colour number (0 to 3) of object `s` at screen column `x`.
pub open spec fn sprite_color_number(
    regs: PpuRegisters,
    vram: Seq<u8>,
    cgb: Cgb,
    s: Sprite,
    x: int,
) -> u8 {
    let address = sprite_row_address(regs, cgb, s);
    let dx = x - s.x;
    let bit = if s.attrs & 0x20 != 0 {
        dx
    } else {
        7 - dx
    };
    color_number(vram[address], vram[address + 1], bit as u8)
}

/// The pixel that object `s` paints at column `x`, or `None` where it is transparent there,
/// lies outside it, or hides behind the background.
pub open spec fn sprite_pixel(
    regs: PpuRegisters,
    vram: Seq<u8>,
    cgb: Cgb,
    bgprio: Seq<PrioType>,
    s: Sprite,
    x: int,
) -> Option<Pixel> {
    if x < s.x || x >= s.x + 8 || x < 0 || x >= 160 {
        None
    } else {
        let colnr = sprite_color_number(regs, vram, cgb, s, x);
        if colnr == 0 {
            None
        } else if s.attrs & 0x80 != 0 && bgprio[x] != PrioType::Color0 {
            None
        } else if cgb.enabled && bgprio[x] == PrioType::PrioFlag {
            None
        } else if cgb.enabled {
            Some(Pixel::rgb_spec(regs.ocp.color_spec(s.attrs & 0x07, colnr)))
        } else {
            Some(
                Pixel::monochrome_spec(
                    if s.attrs & 0x10 != 0 {
                        regs.obp1
                    } else {
                        regs.obp0
                    },
                    colnr,
                ),
            )
        }
    }
}

/// The object that shows at column `x`: of those in `sprites` that paint there,
/// the one with the lowest priority key (the first such in `sprites` on a tie).
pub open spec fn winner(
    regs: PpuRegisters,
    vram: Seq<u8>,
    cgb: Cgb,
    bgprio: Seq<PrioType>,
    sprites: Seq<Sprite>,
    x: int,
) -> Option<Sprite>
    decreases sprites.len(),
{
    if sprites.len() == 0 {
        None
    } else {
        let w = winner(regs, vram, cgb, bgprio, sprites.drop_last(), x);
        let e = sprites.last();
        if sprite_pixel(regs, vram, cgb, bgprio, e, x) is Some && (w is None || priority_key(e, cgb)
            < priority_key(w->0, cgb)) {
            Some(e)
        } else {
            w
        }
    }
}

/// The pixel at column `x` after the objects were drawn over `old`.
pub open spec fn with_sprites(
    regs: PpuRegisters,
    vram: Seq<u8>,
    voam: Seq<u8>,
    cgb: Cgb,
    bgprio: Seq<PrioType>,
    old: Pixel,
    x: int,
) -> Pixel {
    if regs.lcdc & LCDC_OBJ == 0 {
        old
    } else {
        match winner(
            regs,
            vram,
            cgb,
            bgprio,
            selected(voam, regs.ly, sprite_size(regs), 40),
            x,
        ) {
            Some(s) => sprite_pixel(regs, vram, cgb, bgprio, s, x)->0,
            None => old,
        }
    }
}

fn sprite_pixel_at(
    regs: &PpuRegisters,
    vram: &Vram,
    cgb: &Cgb,
    bgprio: &[PrioType; 160],
    s: Sprite,
    x: i16,
) -> (r: Option<Pixel>)
    requires
        vram.wf(),
        covers_line(s, regs.ly, sprite_size(*regs)),
        -8 <= s.x < 248,
        0 <= s.oam_index < 40,
    ensures
        r == sprite_pixel(*regs, vram.memory@, *cgb, bgprio@, s, x as int),
{
    if x < s.x || x >= s.x + 8 || x < 0 || x >= 160 {
        return None;
    }
    let size: i16 = if regs.lcdc & LCDC_OBJ_SIZE != 0 {
        16
    } else {
        8
    };
    let dy: i16 = regs.ly as i16 - s.y;
    let tiley: usize = if s.attrs & 0x40 != 0 {
        (size - 1 - dy) as usize
    } else {
        dy as usize
    };
    let tile: u8 = if size == 16 {
        s.tile & 0xFE
    } else {
        s.tile
    };
    let address: usize = tile as usize * 16 + tiley * 2 + if s.attrs & 0x08 != 0 && cgb.enabled() {
        VRAM_BANK_SIZE
    } else {
        0
    };
    let dx: i16 = x - s.x;
    let bit: u8 = if s.attrs & 0x20 != 0 {
        dx as u8
    } else {
        (7 - dx) as u8
    };
    let colnr = bit_of(vram.read(address), vram.read(address + 1), bit);
    if colnr == 0 {
        None
    } else if s.attrs & 0x80 != 0 && bgprio[x as usize] != PrioType::Color0 {
        None
    } else if cgb.enabled() && bgprio[x as usize] == PrioType::PrioFlag {
        None
    } else if cgb.enabled() {
        proof {
            let a = s.attrs;
            assert(a & 0x07 < 8) by (bit_vector);
        }
        Some(Pixel::rgb(&regs.ocp.color(s.attrs & 0x07, colnr)))
    } else {
        Some(
            Pixel::monochrome(
                if s.attrs & 0x10 != 0 {
                    regs.obp1
                } else {
                    regs.obp0
                },
                colnr,
            ),
        )
    }
}

fn priority_key_of(s: &Sprite, cgb: &Cgb) -> (r: i32)
    requires
        -8 <= s.x < 248,
        s.oam_index < 40,
    ensures
        r == priority_key(*s, *cgb),
{
    if cgb.enabled() {
        s.oam_index as i32
    } else {
        s.x as i32 * 64 + s.oam_index as i32
    }
}

/// The objects that cover line LY, at most ten, in OAM order.
fn select_sprites(regs: &PpuRegisters, voam: &Voam) -> (r: Vec<Sprite>)
    requires
        voam.wf(),
    ensures
        r@ == selected(voam@, regs.ly, sprite_size(*regs), 40),
        forall|k: int|
            0 <= k < r@.len() ==> -8 <= #[trigger] r@[k].x < 248 && r@[k].oam_index < 40
                && covers_line(r@[k], regs.ly, sprite_size(*regs)),
{
    let size: i16 = if regs.lcdc & LCDC_OBJ_SIZE != 0 {
        16
    } else {
        8
    };
    let mut sprites: Vec<Sprite> = Vec::new();
    let mut i: usize = 0;
    while i < 40
        invariant
            i <= 40,
            voam.wf(),
            size == sprite_size(*regs),
            sprites@ == selected(voam@, regs.ly, size as int, i as nat),
            forall|k: int|
                0 <= k < sprites@.len() ==> -8 <= #[trigger] sprites@[k].x < 248
                    && sprites@[k].oam_index < 40 && covers_line(
                    sprites@[k],
                    regs.ly,
                    size as int,
                ),
        decreases 40 - i,
    {
        let base = i * 4;
        let sy: i16 = voam.read(base) as i16 - 16;
        let sx: i16 = voam.read(base + 1) as i16 - 8;
        let tile = voam.read(base + 2);
        let attrs = voam.read(base + 3);
        let ly: i16 = regs.ly as i16;
        if ly >= sy && ly < sy + size && sprites.len() < 10 {
            sprites.push(Sprite { x: sx, y: sy, tile, attrs, oam_index: i });
        }
        i = i + 1;
    }
    sprites
}

/// The pixel and priority key that column `x` holds once the objects in `sprites` were drawn
/// over `background`; the key is `i32::MAX` where no object shows.
pub open spec fn shown(
    regs: PpuRegisters,
    vram: Seq<u8>,
    cgb: Cgb,
    bgprio: Seq<PrioType>,
    sprites: Seq<Sprite>,
    background: [Pixel; 160],
    x: int,
) -> (Pixel, i32) {
    match winner(regs, vram, cgb, bgprio, sprites, x) {
        Some(s) => (sprite_pixel(regs, vram, cgb, bgprio, s, x)->0, priority_key(s, cgb) as i32),
        None => (background[x], i32::MAX),
    }
}

/// The object that shows is one of `sprites`.
proof fn lemma_winner_in(
    regs: PpuRegisters,
    vram: Seq<u8>,
    cgb: Cgb,
    bgprio: Seq<PrioType>,
    sprites: Seq<Sprite>,
    x: int,
)
    ensures
        winner(regs, vram, cgb, bgprio, sprites, x) matches Some(w) ==> sprites.contains(w),
    decreases sprites.len(),
{
    if sprites.len() > 0 {
        lemma_winner_in(regs, vram, cgb, bgprio, sprites.drop_last(), x);
        let w = winner(regs, vram, cgb, bgprio, sprites.drop_last(), x);
        if w is Some {
            let i = choose|i: int| 0 <= i < sprites.drop_last().len() && sprites.drop_last()[i] == w->0;
            assert(sprites[i] == w->0);
        }
        assert(sprites[sprites.len() - 1] == sprites.last());
    }
}

/// How drawing one more object changes what column `x` shows.
proof fn lemma_shown_next(
    regs: PpuRegisters,
    vram: Seq<u8>,
    cgb: Cgb,
    bgprio: Seq<PrioType>,
    next: Seq<Sprite>,
    background: [Pixel; 160],
    x: int,
)
    requires
        next.len() > 0,
        forall|j: int|
            0 <= j < next.len() ==> -8 <= #[trigger] next[j].x < 248 && next[j].oam_index < 40,
    ensures
        ({
            let prev = next.drop_last();
            let e = next.last();
            let before = shown(regs, vram, cgb, bgprio, prev, background, x);
            &&& priority_key(e, cgb) < i32::MAX
            &&& shown(regs, vram, cgb, bgprio, next, background, x) == match sprite_pixel(
                regs,
                vram,
                cgb,
                bgprio,
                e,
                x,
            ) {
                None => before,
                Some(p) => if (priority_key(e, cgb) as i32) < before.1 {
                    (p, priority_key(e, cgb) as i32)
                } else {
                    before
                },
            }
        }),
{
    let prev = next.drop_last();
    assert(next[next.len() - 1] == next.last());
    lemma_winner_in(regs, vram, cgb, bgprio, prev, x);
    let w = winner(regs, vram, cgb, bgprio, prev, x);
    if w is Some {
        let i = choose|i: int| 0 <= i < prev.len() && prev[i] == w->0;
        assert(prev[i] == next[i]);
    }
}

/// Draws the objects of line LY over `framebuffer`, which holds the background of the line:
/// at each column the object with the best priority that paints there shows.
pub fn draw_sprites(
    regs: &PpuRegisters,
    vram: &Vram,
    voam: &Voam,
    cgb: &Cgb,
    bgprio: &[PrioType; 160],
    framebuffer: &mut [Pixel; 160],
)
    requires
        vram.wf(),
        voam.wf(),
    ensures
        forall|x: int|
            0 <= x < 160 ==> final(framebuffer)[x] == #[trigger] with_sprites(
                *regs,
                vram.memory@,
                voam@,
                *cgb,
                bgprio@,
                old(framebuffer)[x],
                x,
            ),
{
    if regs.lcdc & LCDC_OBJ == 0 {
        return;
    }
    let sprites = select_sprites(regs, voam);
    let ghost fb0 = *framebuffer;
    let ghost all = sprites@;
    let ghost mem = vram.memory@;
    let mut best: [i32; 160] = [i32::MAX; 160];
    let mut k: usize = 0;
    assert(all.subrange(0, 0) =~= Seq::<Sprite>::empty());
    while k < sprites.len()
        invariant
            k <= all.len(),
            sprites@ == all,
            vram.wf(),
            vram.memory@ == mem,
            forall|j: int|
                0 <= j < all.len() ==> -8 <= #[trigger] all[j].x < 248 && all[j].oam_index < 40
                    && covers_line(all[j], regs.ly, sprite_size(*regs)),
            forall|x: int|
                0 <= x < 160 ==> (framebuffer[x], best[x]) == #[trigger] shown(
                    *regs,
                    mem,
                    *cgb,
                    bgprio@,
                    all.subrange(0, k as int),
                    fb0,
                    x,
                ),
        decreases all.len() - k,
    {
        let s = sprites[k];
        let key = priority_key_of(&s, cgb);
        let ghost prev = all.subrange(0, k as int);
        let ghost next = all.subrange(0, k + 1);
        assert(next.drop_last() =~= prev);
        assert(next.last() == s);
        assert forall|j: int|
            0 <= j < next.len() implies -8 <= #[trigger] next[j].x < 248 && next[j].oam_index
            < 40 by {
            assert(next[j] == all[j]);
        }
        proof {
            assert forall|x: int| 0 <= x < 160 && x < s.x implies #[trigger] shown(
                *regs,
                mem,
                *cgb,
                bgprio@,
                next,
                fb0,
                x,
            ) == shown(*regs, mem, *cgb, bgprio@, prev, fb0, x) by {
                lemma_shown_next(*regs, mem, *cgb, bgprio@, next, fb0, x);
            }
        }
        let mut dx: i16 = 0;
        while dx < 8
            invariant
                0 <= dx <= 8,
                vram.wf(),
                vram.memory@ == mem,
                s == next.last(),
                next.drop_last() == prev,
                next.len() > 0,
                forall|j: int|
                    0 <= j < next.len() ==> -8 <= #[trigger] next[j].x < 248 && next[j].oam_index
                        < 40,
                -8 <= s.x < 248,
                s.oam_index < 40,
                covers_line(s, regs.ly, sprite_size(*regs)),
                key == priority_key(s, *cgb),
                forall|x: int|
                    0 <= x < 160 ==> (framebuffer[x], best[x]) == if x < s.x + dx {
                        shown(*regs, mem, *cgb, bgprio@, next, fb0, x)
                    } else {
                        shown(*regs, mem, *cgb, bgprio@, prev, fb0, x)
                    },
            decreases 8 - dx,
        {
            let x: i16 = s.x + dx;
            proof {
                if 0 <= x < 160 {
                    lemma_shown_next(*regs, mem, *cgb, bgprio@, next, fb0, x as int);
                }
            }
            if 0 <= x && x < 160 {
                let xi = x as usize;
                match sprite_pixel_at(regs, vram, cgb, bgprio, s, x) {
                    Some(p) => {
                        if key < best[xi] {
                            framebuffer[xi] = p;
                            best[xi] = key;
                        }
                    },
                    None => {},
                }
            }
            dx = dx + 1;
        }
        proof {
            assert forall|x: int| 0 <= x < 160 implies (framebuffer[x], best[x]) == #[trigger] shown(
                *regs,
                mem,
                *cgb,
                bgprio@,
                next,
                fb0,
                x,
            ) by {
                if x >= s.x + 8 {
                    lemma_shown_next(*regs, mem, *cgb, bgprio@, next, fb0, x);
                }
            }
        }
        k = k + 1;
    }
    proof {
        assert(all.subrange(0, all.len() as int) =~= all);
        assert forall|x: int| 0 <= x < 160 implies framebuffer[x] == #[trigger] with_sprites(
            *regs,
            mem,
            voam@,
            *cgb,
            bgprio@,
            fb0[x],
            x,
        ) by {
            assert((framebuffer[x], best[x]) == shown(*regs, mem, *cgb, bgprio@, all, fb0, x));
        }
    }
}

} // verus!

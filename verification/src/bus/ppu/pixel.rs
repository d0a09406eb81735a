use vstd::prelude::*;

verus! {

/// One pixel of the frame, as 8-bit RGB.
#[derive(Clone, Copy)]
pub struct Pixel {
    pub rgb: [u8; 3],
}

/// The four shades of the monochrome screen, lightest first.
pub open spec fn shade(index: u8) -> [u8; 3] {
    if index == 0 {
        [0xE0, 0xF8, 0xD0]
    } else if index == 1 {
        [0x88, 0xC0, 0x70]
    } else if index == 2 {
        [0x34, 0x68, 0x56]
    } else {
        [0x08, 0x18, 0x20]
    }
}

/// The shade that a monochrome palette register gives colour number `color`.
pub open spec fn palette_shade(palette: u8, color: u8) -> u8 {
    (palette >> ((color & 0x03) * 2)) & 0x03
}

impl Pixel {
    pub fn black() -> (r: Self)
        ensures
            r.rgb@ == seq![0u8, 0u8, 0u8],
    {
        let r = Self { rgb: [0u8, 0u8, 0u8] };
        assert(r.rgb@ =~= seq![0u8, 0u8, 0u8]);
        r
    }

    pub open spec fn monochrome_spec(palette: u8, color: u8) -> Pixel {
        Pixel { rgb: shade(palette_shade(palette, color)) }
    }

    /// The pixel of colour number `color` under monochrome palette register `palette`.
    pub fn monochrome(palette: u8, color: u8) -> (r: Self)
        ensures
            r == Pixel::monochrome_spec(palette, color),
    {
        let c: u8 = color & 0x03;
        proof {
            assert(color & 0x03 <= 3) by (bit_vector);
        }
        let s: u8 = (palette >> (c * 2)) & 0x03;
        Self {
            rgb: if s == 0 {
                [0xE0, 0xF8, 0xD0]
            } else if s == 1 {
                [0x88, 0xC0, 0x70]
            } else if s == 2 {
                [0x34, 0x68, 0x56]
            } else {
                [0x08, 0x18, 0x20]
            },
        }
    }

    pub open spec fn rgb_spec(rgb: [u8; 3]) -> Pixel {
        let r = rgb[0] as int;
        let g = rgb[1] as int;
        let b = rgb[2] as int;
        Pixel {
            rgb: [
                (((r * 13 + g * 2 + b) / 2) % 256) as u8,
                (((g * 3 + b) * 2) % 256) as u8,
                (((r * 3 + g * 2 + b * 11) / 2) % 256) as u8,
            ],
        }
    }

    /// The pixel that an RGB555 colour of the Game Boy Color gives after colour correction.
    pub fn rgb(rgb: &[u8; 3]) -> (res: Self)
        ensures
            res == Pixel::rgb_spec(*rgb),
    {
        let r = rgb[0] as u16;
        let g = rgb[1] as u16;
        let b = rgb[2] as u16;
        let c0: u16 = (r * 13 + g * 2 + b) / 2;
        let c1: u16 = (g * 3 + b) * 2;
        let c2: u16 = (r * 3 + g * 2 + b * 11) / 2;
        Self { rgb: [(c0 % 256) as u8, (c1 % 256) as u8, (c2 % 256) as u8] }
    }
}

} // verus!

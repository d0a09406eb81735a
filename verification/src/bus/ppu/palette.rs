use vstd::prelude::*;

verus! {

broadcast use vstd::array::group_array_axioms;

/// A colour palette memory of the Game Boy Color (eight palettes of four RGB555 colours),
/// with its specification register.
#[derive(Clone, Copy)]
pub struct Palette {
    /// The specification register: bit 7 auto-increment, bits 0 to 5 the byte address.
    pub index: u8,
    /// The colour components, five bits each: `data[(palette * 4 + colour) * 3 + component]`.
    pub data: [u8; 96],
}

/// Where component `k` of colour `col` of palette `palette` is kept.
pub open spec fn slot(palette: int, col: int, k: int) -> int {
    (palette * 4 + col) * 3 + k
}

impl Palette {
    /// The power-on state: byte address 0, every colour black.
    pub open spec fn cleared(&self) -> bool {
        self.index == 0 && forall|i: int| 0 <= i < 96 ==> self.data[i] == 0
    }

    pub fn new() -> (r: Self)
        ensures
            r.cleared(),
            r.index == 0,
            forall|i: int| 0 <= i < 96 ==> r.data[i] == 0,
    {
        Self { index: 0, data: [0u8; 96] }
    }

    /// The palette and colour that the byte address selects, and whether it is the low byte.
    pub open spec fn selection(&self) -> (bool, int, int) {
        let select = self.index & 0x3F;
        (select & 0x01 == 0, (select >> 3u8) as int, ((select >> 1u8) & 0x3) as int)
    }

    fn selected(&self) -> (r: (bool, usize, usize))
        ensures
            (r.0, r.1 as int, r.2 as int) == self.selection(),
            r.1 < 8,
            r.2 < 4,
    {
        let index = self.index;
        let select = index & 0x3F;
        proof {
            assert((select >> 3u8) < 8) by (bit_vector)
                requires
                    select == index & 0x3F,
            ;
            assert(((select >> 1u8) & 0x3) < 4) by (bit_vector);
        }
        (select & 0x01 == 0, (select >> 3u8) as usize, ((select >> 1u8) & 0x3) as usize)
    }

    pub open spec fn read_spec(&self, offset: u16) -> u8 {
        if offset == 0 {
            0x40 | self.index
        } else {
            let (lower, palette, col) = self.selection();
            let c0 = self.data[slot(palette, col, 0)];
            let c1 = self.data[slot(palette, col, 1)];
            let c2 = self.data[slot(palette, col, 2)];
            if lower {
                c0 | ((c1 & 0x07) << 5u8)
            } else {
                ((c1 & 0x18) >> 3u8) | (c2 << 2u8)
            }
        }
    }

    /// Reads the specification register (`offset` 0) or the selected data byte (`offset` 1).
    pub fn read(&self, offset: u16) -> (r: u8)
        requires
            offset <= 1,
        ensures
            r == self.read_spec(offset),
    {
        if offset == 0 {
            0x40 | self.index
        } else {
            let (lower, palette, col) = self.selected();
            let c0 = self.data[(palette * 4 + col) * 3];
            let c1 = self.data[(palette * 4 + col) * 3 + 1];
            let c2 = self.data[(palette * 4 + col) * 3 + 2];
            if lower {
                c0 | ((c1 & 0x07) << 5u8)
            } else {
                ((c1 & 0x18) >> 3u8) | (c2 << 2u8)
            }
        }
    }

    /// The specification register after a data write: advanced where auto-increment is on.
    pub open spec fn next_index(index: u8) -> u8 {
        if index & 0x80 != 0 {
            0x80 | ((index + 1) % 256) as u8 & 0x3F
        } else {
            index
        }
    }

    /// The palette after `value` was written to the specification register (`offset` 0)
    /// or to the selected data byte (`offset` 1).
    pub open spec fn write_spec(self, offset: u16, value: u8) -> Palette {
        if offset == 0 {
            Palette { index: value & 0xBF, ..self }
        } else {
            let (lower, palette, col) = self.selection();
            let c1 = self.data[slot(palette, col, 1)];
            let data = if lower {
                vstd::array::spec_array_update(
                    vstd::array::spec_array_update(self.data, slot(palette, col, 0), value & 0x1F),
                    slot(palette, col, 1),
                    (c1 & 0x18) | (value >> 5u8),
                )
            } else {
                vstd::array::spec_array_update(
                    vstd::array::spec_array_update(
                        self.data,
                        slot(palette, col, 1),
                        (c1 & 0x07) | ((value & 0x3) << 3u8),
                    ),
                    slot(palette, col, 2),
                    (value >> 2u8) & 0x1F,
                )
            };
            Palette { index: Palette::next_index(self.index), data }
        }
    }

    /// Writes the specification register (`offset` 0) or the selected data byte (`offset` 1).
    pub fn write(&mut self, offset: u16, value: u8)
        requires
            offset <= 1,
        ensures
            *final(self) == old(self).write_spec(offset, value),
    {
        if offset == 0 {
            self.index = value & 0xBF;
        } else {
            let (lower, palette, col) = self.selected();
            let base = (palette * 4 + col) * 3;
            let c1 = self.data[base + 1];
            if lower {
                self.data[base] = value & 0x1F;
                self.data[base + 1] = (c1 & 0x18) | (value >> 5u8);
            } else {
                self.data[base + 1] = (c1 & 0x07) | ((value & 0x3) << 3u8);
                self.data[base + 2] = (value >> 2u8) & 0x1F;
            }
            if self.index & 0x80 != 0 {
                self.index = 0x80 | (self.index.wrapping_add(1) & 0x3F);
            }
            proof {
                let (l, p, c) = old(self).selection();
                let d0 = old(self).data;
                if l {
                    let u1 = vstd::array::spec_array_update(d0, slot(p, c, 0), value & 0x1F);
                    assert(u1@ == d0@.update(slot(p, c, 0), value & 0x1F));
                    let u2 = vstd::array::spec_array_update(u1, slot(p, c, 1), (c1 & 0x18) | (value >> 5u8));
                    assert(self.data =~= u2);
                } else {
                    let u1 = vstd::array::spec_array_update(d0, slot(p, c, 1), (c1 & 0x07) | ((value & 0x3) << 3u8));
                    assert(u1@ == d0@.update(slot(p, c, 1), (c1 & 0x07) | ((value & 0x3) << 3u8)));
                    let u2 = vstd::array::spec_array_update(u1, slot(p, c, 2), (value >> 2u8) & 0x1F);
                    assert(self.data =~= u2);
                }
            }
        }
    }

    pub open spec fn color_spec(&self, palnr: u8, col: u8) -> [u8; 3] {
        [
            self.data[slot(palnr as int, col as int, 0)],
            self.data[slot(palnr as int, col as int, 1)],
            self.data[slot(palnr as int, col as int, 2)],
        ]
    }

    /// The RGB555 components of colour `col` of palette `palnr`.
    pub fn color(&self, palnr: u8, col: u8) -> (r: [u8; 3])
        requires
            palnr < 8,
            col < 4,
        ensures
            r == self.color_spec(palnr, col),
    {
        let base = (palnr as usize * 4 + col as usize) * 3;
        [self.data[base], self.data[base + 1], self.data[base + 2]]
    }
}

} // verus!

use vstd::prelude::*;

use crate::util::Memory;

verus! {

/// The size of one work RAM bank.
pub const BANK_SIZE: usize = 0x1000;

/// Work RAM: a fixed bank at `0xC000` and a switchable bank at `0xD000` (eight banks in all).
pub struct Wram {
    pub data: Memory<0x8000, u8>,
    /// The switchable bank, less one.
    pub bank: u8,
}

impl Wram {
    pub fn new() -> (r: Self)
        ensures
            r.wf(),
            r.bank == 1,
            forall|i: int| 0 <= i < 0x8000 ==> r.data@[i] == 0,
    {
        Self { data: Memory::new(), bank: 1 }
    }

    pub open spec fn wf(&self) -> bool {
        self.data.wf() && self.bank <= 6
    }

    /// Selects the switchable bank from bits 0 to 2 of `value` (0 selects bank 1).
    pub fn write_bank(&mut self, value: u8)
        requires
            old(self).wf(),
        ensures
            final(self).wf(),
            final(self).bank == if value & 0b111 == 0 {
                0
            } else {
                (value & 0b111) - 1
            },
            final(self).data == old(self).data,
    {
        proof {
            assert(value & 0b111 <= 7) by (bit_vector);
        }
        self.bank = (value & 0b111).saturating_sub(1);
    }

    pub fn read_bank(&self) -> (r: u8)
        requires
            self.wf(),
        ensures
            r == self.bank + 1,
    {
        self.bank + 1
    }

    /// Where in the eight banks an offset from `0xC000` lies.
    pub open spec fn map_spec(&self, offset: int) -> int {
        if offset < 0x1000 {
            offset
        } else {
            offset + self.bank as int * 0x1000
        }
    }

    fn map(&self, offset: usize) -> (r: usize)
        requires
            self.wf(),
            offset < 0x2000,
        ensures
            r == self.map_spec(offset as int),
            r < 0x8000,
    {
        if offset < 0x1000 {
            offset
        } else {
            offset + self.bank as usize * BANK_SIZE
        }
    }

    pub open spec fn read_spec(&self, offset: int) -> u8 {
        self.data@[self.map_spec(offset)]
    }

    pub fn read(&self, offset: usize) -> (r: u8)
        requires
            self.wf(),
            offset < 0x2000,
        ensures
            r == self.read_spec(offset as int),
    {
        self.data.read(self.map(offset))
    }

    pub fn write(&mut self, offset: usize, value: u8)
        requires
            old(self).wf(),
            offset < 0x2000,
        ensures
            final(self).wf(),
            final(self).bank == old(self).bank,
            final(self).data@ == old(self).data@.update(old(self).map_spec(offset as int), value),
    {
        let index = self.map(offset);
        self.data.write(index, value);
    }
}

} // verus!

use vstd::prelude::*;

use crate::bus::ppu::registers::{PpuRegisters, TRANSFER};
use crate::util::{Address, Memory};

verus! {

/// The size of one VRAM bank.
pub const VRAM_BANK_SIZE: usize = 0x2000;

/// Object attribute memory: forty four-byte entries.
pub type Voam = Memory<0xA0, u8>;

/// Video RAM: two banks of 8 KiB, one of them mapped at `0x8000..=0x9FFF`.
pub struct Vram {
    pub memory: Memory<0x4000, u8>,
    /// Whether bank 1 is mapped.
    pub bank: bool,
}

impl Vram {
    pub fn new() -> (r: Self)
        ensures
            r.wf(),
            !r.bank,
            forall|i: int| 0 <= i < 0x4000 ==> r.memory@[i] == 0,
    {
        Self { memory: Memory::new(), bank: false }
    }

    pub open spec fn wf(&self) -> bool {
        self.memory.wf()
    }

    pub fn read(&self, index: usize) -> (r: u8)
        requires
            self.wf(),
            index < 0x4000,
        ensures
            r == self.memory@[index as int],
    {
        self.memory.read(index)
    }

    /// Where an offset into the mapped bank lies in both banks.
    pub open spec fn bank_spec(&self, offset: int) -> int {
        offset + if self.bank {
            0x2000int
        } else {
            0
        }
    }

    pub fn bank(&self, offset: usize) -> (r: usize)
        requires
            offset < 0x2000,
        ensures
            r == self.bank_spec(offset as int),
            r < 0x4000,
    {
        offset + if self.bank {
            VRAM_BANK_SIZE
        } else {
            0
        }
    }

    /// Where the CPU's access to `address` lands: nowhere during pixel transfer, except for DMA.
    pub open spec fn map_spec(&self, dma: bool, regs: PpuRegisters, address: u16) -> Option<int> {
        if dma || regs.mode_spec() != TRANSFER {
            Some(self.bank_spec(address - 0x8000))
        } else {
            None
        }
    }

    pub fn map<const DMA: bool>(&self, regs: &PpuRegisters, address: &Address) -> (r: Option<usize>)
        requires
            0x8000 <= address.0 <= 0x9FFF,
        ensures
            r matches Some(i) ==> i < 0x4000,
            (match r {
                Some(i) => Some(i as int),
                None => None,
            }) == self.map_spec(DMA, *regs, address.0),
    {
        if DMA || regs.mode() != TRANSFER {
            Some(self.bank(address.index() - 0x8000))
        } else {
            None
        }
    }

    pub fn write(&mut self, index: usize, value: u8)
        requires
            old(self).wf(),
            index < 0x4000,
        ensures
            final(self).wf(),
            final(self).bank == old(self).bank,
            final(self).memory@ == old(self).memory@.update(index as int, value),
    {
        self.memory.write(index, value);
    }
}

} // verus!

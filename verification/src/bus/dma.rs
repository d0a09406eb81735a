use vstd::prelude::*;

use crate::util::Address;

verus! {

/// The number of bytes that an OAM DMA transfer copies.
pub const LENGTH: u16 = 160;

/// The OAM DMA unit: copies 160 bytes from `source` into OAM, one per T-cycle.
#[derive(Clone, Copy, Debug)]
pub struct Dma {
    pub source: Address,
    /// The bytes copied so far; the transfer is over at `LENGTH`.
    pub clock: u16,
}

impl Dma {
    pub fn new() -> (r: Self)
        ensures
            r.source.0 == 0,
            r.clock == LENGTH,
    {
        Self { source: Address::new(0), clock: LENGTH }
    }

    pub open spec fn is_active_spec(&self) -> bool {
        self.clock < LENGTH
    }

    pub fn is_active(&self) -> (r: bool)
        ensures
            r == self.is_active_spec(),
    {
        self.clock < LENGTH
    }

    /// The page that the last transfer was started from.
    pub fn read(&self) -> (r: u8)
        ensures
            r == self.source.0 / 256,
    {
        (self.source.value() / 256) as u8
    }

    /// Starts a transfer from page `value` (`value * 0x100`).
    pub fn write(&mut self, value: u8)
        ensures
            final(self).source.0 == value as int * 256,
            final(self).clock == 0,
    {
        self.source = Address::new((value as u16) * 256);
        self.clock = 0;
    }
}

} // verus!

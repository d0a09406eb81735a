use vstd::prelude::*;

use crate::util::{Address, Width};

verus! {

/// A running VRAM transfer.
#[derive(Clone, Copy, Debug)]
pub struct Transfer {
    pub source: Width,
    pub destination: Width,
    /// The bytes copied so far.
    pub index: Width,
    /// The bytes to copy.
    pub length: Width,
    /// Whether one block of sixteen bytes is copied per HBLANK, rather than one byte per
    /// T-cycle of the CPU.
    pub hdma: bool,
}

/// The size of one transfer block.
pub const BLOCK_SIZE: Width = 0x10;

impl Transfer {
    /// The remaining length as HDMA5 reports it.
    pub open spec fn remaining_spec(&self) -> u8 {
        (((self.length - self.index / BLOCK_SIZE) % 256 + 255) % 256) as u8
    }

    pub fn remaining(&self) -> (r: u8)
        requires
            self.index <= self.length,
        ensures
            r == self.remaining_spec(),
    {
        (((self.length - self.index / BLOCK_SIZE) % 256) as u8).wrapping_sub(1)
    }
}

/// The Game Boy Color's VRAM DMA (HDMA1 to HDMA5).
#[derive(Clone, Copy, Debug)]
pub struct Cdma {
    pub source: Width,
    pub destination: Width,
    pub hdma5: u8,
    pub transfer: Option<Transfer>,
}

pub const ADDRESS_HDMA1: u16 = 0xFF51;
pub const ADDRESS_HDMA2: u16 = 0xFF52;
pub const ADDRESS_HDMA3: u16 = 0xFF53;
pub const ADDRESS_HDMA4: u16 = 0xFF54;
pub const ADDRESS_HDMA5: u16 = 0xFF55;

impl Cdma {
    pub fn new() -> (r: Self)
        ensures
            r.wf(),
            r.source == 0 && r.destination == 0 && r.hdma5 == 0xFF && r.transfer is None,
    {
        Self { source: 0, destination: 0, transfer: None, hdma5: 0xFF }
    }

    /// A running transfer copies into VRAM and has not overrun its length.
    pub open spec fn wf(&self) -> bool {
        match self.transfer {
            Some(t) => t.index <= t.length <= 0x800 && 0x8000 <= t.destination <= 0x9FF0
                && t.source <= 0xFFF0,
            None => true,
        }
    }

    pub open spec fn read_spec(&self, a: u16) -> u8 {
        if a == ADDRESS_HDMA5 {
            self.hdma5
        } else {
            0xFF
        }
    }

    pub fn read(&self, address: &Address) -> (r: u8)
        requires
            ADDRESS_HDMA1 <= address.0 <= ADDRESS_HDMA5,
        ensures
            r == self.read_spec(address.0),
    {
        if address.value() == ADDRESS_HDMA5 {
            self.hdma5
        } else {
            0xFF
        }
    }

    pub open spec fn write_spec(self, a: u16, value: u8) -> Cdma {
        if a == ADDRESS_HDMA1 {
            Cdma { source: (self.source & 0x00FF) | ((value as u16) << 8u16), ..self }
        } else if a == ADDRESS_HDMA2 {
            Cdma { source: (self.source & 0xFF00) | (value as u16), ..self }
        } else if a == ADDRESS_HDMA3 {
            Cdma { destination: (self.destination & 0x00FF) | ((value as u16) << 8u16), ..self }
        } else if a == ADDRESS_HDMA4 {
            Cdma { destination: (self.destination & 0xFF00) | (value as u16), ..self }
        } else if self.transfer is Some && self.transfer->0.hdma {
            if value & 0x80 == 0 {
                Cdma { hdma5: 0x80 | self.transfer->0.remaining_spec(), transfer: None, ..self }
            } else {
                self
            }
        } else {
            Cdma {
                hdma5: value & 0x7F,
                transfer: Some(
                    Transfer {
                        source: self.source & 0xFFF0,
                        destination: (self.destination & 0x1FF0) | 0x8000,
                        length: (((value & 0x7F) + 1) * 16) as u16,
                        hdma: value & 0x80 != 0,
                        index: 0,
                    },
                ),
                ..self
            }
        }
    }

    /// A write to HDMA1 to HDMA5; a write to HDMA5 starts a transfer or stops an HBLANK one.
    pub fn write(&mut self, address: &Address, value: u8)
        requires
            old(self).wf(),
            ADDRESS_HDMA1 <= address.0 <= ADDRESS_HDMA5,
        ensures
            final(self).wf(),
            *final(self) == old(self).write_spec(address.0, value),
    {
        let a = address.value();
        if a == ADDRESS_HDMA1 {
            self.source = (self.source & 0x00FF) | ((value as Width) << 8u16);
        } else if a == ADDRESS_HDMA2 {
            self.source = (self.source & 0xFF00) | (value as Width);
        } else if a == ADDRESS_HDMA3 {
            self.destination = (self.destination & 0x00FF) | ((value as Width) << 8u16);
        } else if a == ADDRESS_HDMA4 {
            self.destination = (self.destination & 0xFF00) | (value as Width);
        } else {
            if let Some(t) = self.transfer {
                if t.hdma {
                    if value & 0x80 == 0 {
                        self.hdma5 = 0x80 | t.remaining();
                        self.transfer = None;
                    }
                    return;
                }
            }
            let s = self.source;
            let d = self.destination;
            proof {
                assert(s & 0xFFF0 <= 0xFFF0) by (bit_vector);
                assert(0x8000 <= ((d & 0x1FF0) | 0x8000) <= 0x9FF0) by (bit_vector);
                assert(value & 0x7F <= 0x7F) by (bit_vector);
            }
            self.hdma5 = value & 0x7F;
            self.transfer = Some(
                Transfer {
                    source: self.source & 0xFFF0,
                    destination: (self.destination & 0x1FF0) | 0x8000,
                    length: ((value & 0x7F) as Width + 1) * BLOCK_SIZE,
                    hdma: value & 0x80 != 0,
                    index: 0,
                },
            );
        }
    }
}

} // verus!

use vstd::prelude::*;

verus! {

/// The infrared port register (RP).
#[derive(Debug, Clone, Copy, PartialEq, Eq, Structural)]
pub struct Ir {
    pub i: u8,
}

impl Ir {
    pub fn new() -> (r: Self)
        ensures
            r.i == 0,
    {
        Self { i: 0 }
    }

    pub fn read(&self) -> (r: u8)
        ensures
            r == self.i,
    {
        self.i
    }

    /// Keeps the read-enable bits (7) of `value`; bit 0 always reads as set.
    pub fn write(&mut self, value: u8)
        ensures
            final(self).i == (value & 0x80) | 1,
    {
        self.i = (value & 0x80) | 1;
    }
}

} // verus!

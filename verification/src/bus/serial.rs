use vstd::prelude::*;

use crate::util::Address;
use crate::Cycles;

verus! {

/// The serial port (SB, SC) with the bytes that it has sent, where they are collected.
pub struct SerialState {
    pub sb: u8,
    pub sc: u8,
    pub active: bool,
    pub cycles: u16,
    /// The bytes sent so far, while a consumer is attached.
    pub output: Option<Vec<u8>>,
}

pub const ADDR_SB: u16 = 0xFF01;

pub const ADDR_SC: u16 = 0xFF02;

/// The interrupt request bit of the serial port.
pub const INTERRUPT_BIT: u8 = 0b1000;

/// The number of T-cycles that one transfer takes.
pub const TRANSFER_CYCLES: u16 = 4096;

impl SerialState {
    pub fn new() -> (r: Self)
        ensures
            r.sb == 0 && r.sc == 0x7E && !r.active && r.cycles == 0 && r.output is None,
    {
        Self { sb: 0x00, sc: 0x7E, active: false, cycles: 0, output: None }
    }

    /// The bytes collected so far (empty while no consumer is attached).
    pub open spec fn sent(&self) -> Seq<u8> {
        match self.output {
            Some(v) => v@,
            None => Seq::empty(),
        }
    }

    /// Attaches a consumer: from now on sent bytes are appended to `output`.
    pub fn set_output(&mut self, output: Vec<u8>)
        ensures
            final(self).output == Some(output),
            final(self).sb == old(self).sb,
            final(self).sc == old(self).sc,
            final(self).active == old(self).active,
            final(self).cycles == old(self).cycles,
    {
        self.output = Some(output);
    }

    /// Detaches the consumer.
    pub fn clear_output(&mut self)
        ensures
            final(self).output is None,
            final(self).sb == old(self).sb,
            final(self).sc == old(self).sc,
            final(self).active == old(self).active,
            final(self).cycles == old(self).cycles,
    {
        self.output = None;
    }

    /// Hands out the bytes collected so far; the consumer stays attached.
    pub fn take_output(&mut self) -> (r: Vec<u8>)
        ensures
            r@ == old(self).sent(),
            final(self).sent() == Seq::<u8>::empty(),
            final(self).output is Some == old(self).output is Some,
            final(self).sb == old(self).sb,
            final(self).sc == old(self).sc,
            final(self).active == old(self).active,
            final(self).cycles == old(self).cycles,
    {
        match self.output.take() {
            Some(v) => {
                self.output = Some(Vec::new());
                v
            },
            None => Vec::new(),
        }
    }

    pub fn is_connected(&self) -> (r: bool)
        ensures
            r == self.output is Some,
    {
        self.output.is_some()
    }

    pub open spec fn read_spec(&self, address: u16) -> u8 {
        if address == ADDR_SB {
            self.sb
        } else {
            self.sc | 0x7E
        }
    }

    pub fn read(&self, address: &Address) -> (r: u8)
        requires
            address.0 == ADDR_SB || address.0 == ADDR_SC,
        ensures
            r == self.read_spec(address.0),
    {
        if address.value() == ADDR_SB {
            self.sb
        } else {
            self.sc | 0x7E
        }
    }

    /// A write to SB or SC; setting bits 7 and 0 of SC starts a transfer.
    pub fn write(&mut self, address: &Address, value: u8)
        requires
            address.0 == ADDR_SB || address.0 == ADDR_SC,
        ensures
            final(self).output == old(self).output,
            address.0 == ADDR_SB ==> {
                &&& final(self).sb == value
                &&& final(self).sc == old(self).sc
                &&& final(self).active == old(self).active
                &&& final(self).cycles == old(self).cycles
            },
            address.0 == ADDR_SC ==> {
                &&& final(self).sb == old(self).sb
                &&& final(self).sc == value & 0x83
                &&& final(self).active == (old(self).active || value & 0x81 == 0x81)
                &&& final(self).cycles == if value & 0x81 == 0x81 {
                    0
                } else {
                    old(self).cycles
                }
            },
    {
        if address.value() == ADDR_SB {
            self.sb = value;
        } else {
            self.sc = value & 0x83;
            proof {
                assert((value & 0x83) & 0x81 == value & 0x81) by (bit_vector);
            }
            if self.sc & 0x81 == 0x81 {
                self.active = true;
                self.cycles = 0;
            }
        }
    }

    /// The transfer counter after `t` more T-cycles (saturating, as a 16-bit count).
    pub open spec fn counted(&self, t: usize) -> u16 {
        let added = t % 0x10000;
        if self.cycles + added > 0xFFFF {
            0xFFFF
        } else {
            (self.cycles + added) as u16
        }
    }

    /// Whether `post` and `post_flags` are what `cycles` T-cycles make of the port `pre` and
    /// the interrupt flags `pre_flags`.
    #[verifier::opaque]
    pub open spec fn cycled(pre: SerialState, post: SerialState, pre_flags: u8, post_flags: u8, cycles: usize) -> bool {
        &&& post.sb == pre.sb
        &&& !pre.active ==> {
            &&& post.sc == pre.sc
            &&& post.active == pre.active
            &&& post.cycles == pre.cycles
            &&& post.output == pre.output
            &&& post_flags == pre_flags
        }
        &&& pre.active ==> {
            let counted = pre.counted(cycles);
            &&& post.cycles == counted
            &&& if counted >= TRANSFER_CYCLES {
                &&& !post.active
                &&& post.sc == pre.sc & 0x7F
                &&& post.output is Some == pre.output is Some
                &&& post.sent() == if pre.output is Some {
                    pre.sent().push(pre.sb)
                } else {
                    Seq::empty()
                }
                &&& post_flags == pre_flags | INTERRUPT_BIT
            } else {
                &&& post.active
                &&& post.sc == pre.sc
                &&& post.output == pre.output
                &&& post_flags == pre_flags
            }
        }
    }

    /// Advances a running transfer; at its end the byte is sent and the interrupt requested.
    pub fn cycle(&mut self, flags: &mut u8, cycles: &Cycles)
        ensures
            SerialState::cycled(*old(self), *final(self), *old(flags), *final(flags), cycles.0),
    {
        reveal(SerialState::cycled);
        if self.active {
            let added: u16 = (cycles.t() % 0x10000) as u16;
            self.cycles = self.cycles.saturating_add(added);
            if self.cycles >= TRANSFER_CYCLES {
                self.active = false;
                self.sc = self.sc & 0x7F;
                let sb = self.sb;
                match self.output.as_mut() {
                    Some(out) => out.push(sb),
                    None => {},
                }
                *flags = *flags | INTERRUPT_BIT;
            }
        }
    }
}

} // verus!

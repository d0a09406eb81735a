//! How many output frames the sound device plays for the samples of the sound unit.
use vstd::prelude::*;

use crate::CLOCK_SPEED;

verus! {

/// Converts durations in T-cycles into frames at the device's sample rate, carrying the
/// remainder from one sample to the next.
pub struct Resampler {
    pub sample_rate: u64,
    /// T-cycles times the sample rate not yet turned into a frame.
    pub counter: u64,
}

impl Resampler {
    pub open spec fn wf(&self) -> bool {
        self.counter < CLOCK_SPEED
    }

    pub fn new(sample_rate: u64) -> (r: Self)
        ensures
            r.wf(),
            r.sample_rate == sample_rate,
            r.counter == 0,
    {
        Self { sample_rate, counter: 0 }
    }

    /// The frames that a sample lasting `cycles` T-cycles fills.
    pub fn frames(&mut self, cycles: usize) -> (r: u64)
        requires
            old(self).wf(),
            old(self).counter + cycles * old(self).sample_rate <= u64::MAX,
        ensures
            final(self).wf(),
            final(self).sample_rate == old(self).sample_rate,
            r == (old(self).counter + cycles * old(self).sample_rate) / CLOCK_SPEED as int,
            final(self).counter == (old(self).counter + cycles * old(self).sample_rate)
                % CLOCK_SPEED as int,
    {
        let c = cycles as u64;
        assert(c * self.sample_rate <= u64::MAX) by (nonlinear_arith)
            requires
                c == cycles,
                self.counter + cycles * self.sample_rate <= u64::MAX,
                self.counter >= 0,
        ;
        let total = self.counter + c * self.sample_rate;
        let clock = CLOCK_SPEED as u64;
        self.counter = total % clock;
        total / clock
    }
}

} // verus!

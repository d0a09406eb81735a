use vstd::prelude::*;

verus! {

/// A length counter that silences its channel after `MAX - value` frame-sequencer ticks.
#[derive(Debug, Clone, Copy)]
pub struct Length<const MAX: u16> {
    pub value: u8,
    pub counter: u16,
}

impl<const MAX: u16> Length<MAX> {
    pub fn new() -> (r: Self)
        ensures
            r.value == 0 && r.counter == 0,
    {
        Self { value: 0, counter: 0 }
    }

    pub open spec fn write_spec(self, value: u8) -> Self {
        Length { value, counter: (MAX - value) as u16 }
    }

    pub open spec fn trigger_spec(self) -> Self {
        if self.counter == 0 {
            Length { counter: MAX, ..self }
        } else {
            self
        }
    }

    /// The counter after one length tick, and whether it expired.
    pub open spec fn step_spec(self, enabled: bool) -> (Self, bool) {
        if enabled && self.counter > 0 {
            (Length { counter: (self.counter - 1) as u16, ..self }, self.counter == 1)
        } else {
            (self, false)
        }
    }

    /// Loads the counter with `MAX - value`.
    pub fn write(&mut self, value: u8)
        requires
            value <= MAX,
        ensures
            *final(self) == old(self).write_spec(value),
    {
        self.value = value;
        self.counter = MAX - value as u16;
    }

    /// Reloads an expired counter with `MAX`.
    pub fn trigger(&mut self)
        ensures
            *final(self) == old(self).trigger_spec(),
    {
        if self.counter == 0 {
            self.counter = MAX;
        }
    }

    /// Counts down where enabled; returns whether the counter just expired.
    pub fn step(&mut self, enabled: bool) -> (r: bool)
        ensures
            (*final(self), r) == old(self).step_spec(enabled),
    {
        if enabled && self.counter > 0 {
            self.counter = self.counter - 1;
            self.counter == 0
        } else {
            false
        }
    }
}

/// The wave duty of a pulse channel and the position in its eight-step pattern.
#[derive(Debug, Clone, Copy)]
pub struct Duty {
    pub value: u8,
    pub step: u8,
}

/// The four duty patterns: 12.5 %, 25 %, 50 % and 75 %.
pub open spec fn duty_pattern(duty: u8, step: u8) -> u8 {
    if duty == 0 {
        if step == 1 {
            1
        } else {
            0
        }
    } else if duty == 1 {
        if step == 1 || step == 2 {
            1
        } else {
            0
        }
    } else if duty == 2 {
        if 1 <= step <= 4 {
            1
        } else {
            0
        }
    } else {
        if step == 1 || step == 2 {
            0
        } else {
            1
        }
    }
}

impl Duty {
    pub fn new() -> (r: Self)
        ensures
            r.value == 0 && r.step == 0,
    {
        Self { value: 0, step: 0 }
    }

    pub open spec fn wf(&self) -> bool {
        self.value < 4 && self.step < 8
    }

    pub fn read(&self) -> (r: u8)
        ensures
            r == self.value,
    {
        self.value
    }

    pub fn write(&mut self, value: u8)
        ensures
            *final(self) == (Duty { value: value & 0b11, ..*old(self) }),
            final(self).value < 4,
    {
        proof {
            assert(value & 0b11 < 4) by (bit_vector);
        }
        self.value = value & 0b11;
    }

    /// Moves `steps` positions on in the pattern.
    pub fn step(&mut self, steps: u8)
        ensures
            *final(self) == (Duty { step: ((old(self).step + steps) % 8) as u8, ..*old(self) }),
    {
        proof {
            let s = self.step;
            assert((((s + steps) % 256) as u8) & 0b111 == (s + steps) % 8) by (bit_vector);
        }
        self.step = (self.step.wrapping_add(steps)) & 0b111;
    }

    pub fn sample(&self) -> (r: u8)
        requires
            self.wf(),
        ensures
            r == duty_pattern(self.value, self.step),
    {
        let s = self.step;
        if self.value == 0 {
            if s == 1 {
                1
            } else {
                0
            }
        } else if self.value == 1 {
            if s == 1 || s == 2 {
                1
            } else {
                0
            }
        } else if self.value == 2 {
            if 1 <= s && s <= 4 {
                1
            } else {
                0
            }
        } else {
            if s == 1 || s == 2 {
                0
            } else {
                1
            }
        }
    }
}

/// A volume envelope: initial volume, direction and period from its register.
#[derive(Debug, Clone, Copy)]
pub struct VolumeEnvelope {
    pub value: u8,
    pub volume: u8,
    pub counter: u8,
}

impl VolumeEnvelope {
    pub fn new() -> (r: Self)
        ensures
            r.value == 0 && r.volume == 0 && r.counter == 0,
    {
        Self { value: 0, volume: 0, counter: 0 }
    }

    pub fn read(&self) -> (r: u8)
        ensures
            r == self.value,
    {
        self.value
    }

    pub fn write(&mut self, value: u8)
        ensures
            *final(self) == (VolumeEnvelope { value, ..*old(self) }),
    {
        self.value = value;
    }

    /// The channel's DAC is on where the register's top five bits are not all zero.
    pub open spec fn dac_enabled_spec(&self) -> bool {
        self.value & 0xF8 != 0
    }

    pub fn dac_enabled(&self) -> (r: bool)
        ensures
            r == self.dac_enabled_spec(),
    {
        self.value & 0xF8 != 0
    }

    pub open spec fn period_spec(&self) -> u8 {
        self.value & 0b111
    }

    pub open spec fn period_or_8_spec(&self) -> u8 {
        if self.period_spec() == 0 {
            8
        } else {
            self.period_spec()
        }
    }

    pub open spec fn trigger_spec(self) -> VolumeEnvelope {
        VolumeEnvelope { volume: self.value >> 4u8, counter: self.period_or_8_spec(), ..self }
    }

    /// Restarts at the initial volume.
    pub fn trigger(&mut self)
        ensures
            *final(self) == old(self).trigger_spec(),
    {
        self.volume = self.initial_volume();
        self.counter = self.period_or_8();
    }

    fn initial_volume(&self) -> (r: u8)
        ensures
            r == self.value >> 4u8,
    {
        self.value >> 4u8
    }

    fn increasing(&self) -> (r: bool)
        ensures
            r == (self.value & 0b1000 != 0),
    {
        (self.value & 0b1000) != 0
    }

    fn period(&self) -> (r: u8)
        ensures
            r == self.period_spec(),
    {
        self.value & 0b111
    }

    fn period_or_8(&self) -> (r: u8)
        ensures
            r == self.period_or_8_spec(),
    {
        let p = self.period();
        if p == 0 {
            8
        } else {
            p
        }
    }

    /// The envelope after one envelope tick of the frame sequencer.
    pub open spec fn step_spec(self) -> VolumeEnvelope {
        if self.period_spec() == 0 {
            self
        } else {
            let counter: u8 = if self.counter == 0 {
                0
            } else {
                (self.counter - 1) as u8
            };
            if counter == 0 {
                VolumeEnvelope {
                    counter: self.period_or_8_spec(),
                    volume: if self.value & 0b1000 != 0 {
                        if self.volume < 15 {
                            (self.volume + 1) as u8
                        } else {
                            self.volume
                        }
                    } else if self.volume > 0 {
                        (self.volume - 1) as u8
                    } else {
                        self.volume
                    },
                    ..self
                }
            } else {
                VolumeEnvelope { counter, ..self }
            }
        }
    }

    /// One envelope tick: when the period runs out the volume moves one step, within 0..=15.
    pub fn step(&mut self)
        ensures
            *final(self) == old(self).step_spec(),
    {
        if self.period() == 0 {
            return;
        }
        self.counter = self.counter.saturating_sub(1);
        if self.counter == 0 {
            self.counter = self.period_or_8();
            if self.increasing() {
                if self.volume < 15 {
                    self.volume = self.volume + 1;
                }
            } else if self.volume > 0 {
                self.volume = self.volume - 1;
            }
        }
    }

    pub fn volume(&self) -> (r: u8)
        ensures
            r == self.volume,
    {
        self.volume
    }
}

/// The 11-bit period of a channel and the timer that counts it down.
#[derive(Debug, Clone, Copy)]
pub struct Period {
    pub value: u16,
    pub timer: usize,
    pub control: u8,
}

/// The number of T-cycles per step of a period divider: `(0x800 - value) * multiplier`.
pub open spec fn period_length(value: u16, multiplier: usize) -> int {
    (0x800 - value) * multiplier
}

impl Period {
    pub fn new() -> (r: Self)
        ensures
            r.value == 0 && r.timer == 0 && r.control == 0,
    {
        Self { value: 0, timer: 0, control: 0 }
    }

    /// The period fits in 11 bits.
    pub open spec fn wf(&self) -> bool {
        self.value <= 0x7FF
    }

    pub open spec fn read_spec(&self, hi: bool) -> u8 {
        if hi {
            (((self.value >> 8u16) as u8) & 0x07) | (self.control & 0x40)
        } else {
            (self.value % 256) as u8
        }
    }

    /// The high register (bits 8 to 10 and the length enable) or the low register.
    pub fn read(&self, hi: bool) -> (r: u8)
        ensures
            r == self.read_spec(hi),
    {
        if hi {
            ((self.value >> 8u16) as u8 & 0x07) | (self.control & 0x40)
        } else {
            (self.value % 256) as u8
        }
    }

    pub open spec fn write_spec(self, hi: bool, value: u8) -> Period {
        if hi {
            Period {
                value: (self.value & 0x00FF) | (((value & 0x07) as u16) << 8u16),
                control: value & 0x40,
                ..self
            }
        } else {
            Period { value: (self.value & 0x0700) | value as u16, ..self }
        }
    }

    /// Writes the high or the low register; returns whether the write triggers the channel.
    pub fn write(&mut self, hi: bool, value: u8) -> (r: bool)
        requires
            old(self).wf(),
        ensures
            *final(self) == old(self).write_spec(hi, value),
            final(self).wf(),
            r == (hi && value & 0x80 != 0),
    {
        let v = self.value;
        if hi {
            proof {
                assert((v & 0x00FF) | (((value & 0x07) as u16) << 8u16) <= 0x7FF) by (bit_vector);
            }
            self.value = (self.value & 0x00FF) | (((value & 0x07) as u16) << 8u16);
            self.control = value & 0x40;
            value & 0x80 != 0
        } else {
            proof {
                assert((v & 0x0700) | (value as u16) <= 0x7FF) by (bit_vector);
            }
            self.value = (self.value & 0x0700) | value as u16;
            false
        }
    }

    pub fn length_enabled(&self) -> (r: bool)
        ensures
            r == (self.control & 0x40 != 0),
    {
        (self.control & 0x40) != 0
    }

    pub open spec fn trigger_spec(self, multiplier: usize) -> Period {
        Period { timer: period_length(self.value, multiplier) as usize, ..self }
    }

    /// The divider after `cycles` T-cycles, and the number of periods that ended.
    pub open spec fn step_spec(self, cycles: usize, multiplier: usize) -> (Period, usize) {
        let p = period_length(self.value, multiplier);
        let first = if self.timer == 0 {
            p
        } else {
            self.timer as int
        };
        if cycles < first {
            (Period { timer: (first - cycles) as usize, ..self }, 0)
        } else {
            (
                Period { timer: (p - (cycles - first) % p) as usize, ..self },
                (1 + (cycles - first) / p) as usize,
            )
        }
    }

    /// Restarts the divider with a full period.
    pub fn trigger(&mut self, multiplier: usize)
        requires
            old(self).wf(),
            period_length(old(self).value, multiplier) <= usize::MAX,
        ensures
            final(self).wf(),
            *final(self) == old(self).trigger_spec(multiplier),
    {
        self.timer = 0;
        self.reload(multiplier);
    }

    /// Runs the divider for `cycles` T-cycles; returns how many periods ended.
    pub fn step(&mut self, cycles: usize, multiplier: usize) -> (steps: usize)
        requires
            old(self).wf(),
            multiplier >= 1,
            period_length(old(self).value, multiplier) <= usize::MAX,
        ensures
            final(self).wf(),
            (*final(self), steps) == old(self).step_spec(cycles, multiplier),
    {
        let mut steps: usize = 0;
        let mut remaining = cycles;
        if self.timer == 0 {
            self.reload(multiplier);
        }
        let ghost first = self.timer as int;
        let ghost p = period_length(self.value, multiplier);
        let ghost mut acc: int = 0;
        proof {
            let v = self.value;
            assert(0 < p) by (nonlinear_arith)
                requires
                    p == (0x800 - v) * multiplier,
                    v <= 0x7FF,
                    multiplier >= 1,
            ;
        }
        while remaining >= self.timer
            invariant
                self.wf(),
                self.value == old(self).value,
                self.control == old(self).control,
                p == period_length(self.value, multiplier),
                0 < p <= usize::MAX,
                first > 0,
                multiplier >= 1,
                self.timer > 0,
                steps + remaining <= cycles,
                steps == 0 ==> remaining == cycles && self.timer == first && acc == 0,
                steps > 0 ==> {
                    &&& cycles >= first
                    &&& self.timer == p
                    &&& remaining as int + first + acc == cycles
                    &&& acc == (steps - 1) * p
                },
                steps <= cycles,
            decreases remaining,
        {
                        remaining = remaining - self.timer;
            self.timer = 0;
            self.reload(multiplier);
            proof {
                if steps > 0 {
                    acc = acc + p;
                }
            }
            let ghost previous = steps;
            steps = steps + 1;
            proof {
                let k = steps as int;
                assert(acc == (k - 1) * p) by (nonlinear_arith)
                    requires
                        previous > 0 ==> acc == (previous - 1) * p + p,
                        previous == 0 ==> acc == 0,
                        k == previous + 1,
                ;
            }
        }
        proof {
            if steps > 0 {
                vstd::arithmetic::div_mod::lemma_fundamental_div_mod_converse(
                    cycles - first,
                    p,
                    steps - 1,
                    remaining as int,
                );
            }
        }
        self.timer = self.timer - remaining;
        steps
    }

    fn reload(&mut self, multiplier: usize)
        requires
            old(self).value <= 0x7FF,
            old(self).timer == 0,
            period_length(old(self).value, multiplier) <= usize::MAX,
        ensures
            final(self).value == old(self).value,
            final(self).control == old(self).control,
            final(self).timer == period_length(old(self).value, multiplier),
            multiplier >= 1 ==> final(self).timer > 0,
    {
        proof {
            let v = old(self).value;
            assert(multiplier >= 1 ==> (0x800 - v) * multiplier > 0) by (nonlinear_arith)
                requires
                    v <= 0x7FF,
            ;
            assert((0x800 - v) * multiplier >= 0) by (nonlinear_arith)
                requires
                    v <= 0x7FF,
            ;
        }
        self.timer = self.timer + (0x0800 - self.value as usize) * multiplier;
    }
}

/// The frequency sweep of channel 1.
#[derive(Debug, Clone, Copy)]
pub struct Sweep {
    pub value: u8,
    pub counter: u8,
    pub shadow: u16,
    pub enabled: bool,
    pub used_negate: bool,
}

impl Sweep {
    pub fn new() -> (r: Self)
        ensures
            r.value == 0 && r.counter == 0 && r.shadow == 0 && !r.enabled && !r.used_negate,
    {
        Self { value: 0, counter: 0, shadow: 0, enabled: false, used_negate: false }
    }

    pub open spec fn period_spec(&self) -> u8 {
        (self.value >> 4u8) & 0b111
    }

    pub open spec fn negate_spec(&self) -> bool {
        self.value & 0b1000 != 0
    }

    pub open spec fn shift_spec(&self) -> u8 {
        self.value & 0b111
    }

    pub open spec fn period_or_8_spec(&self) -> u8 {
        if self.period_spec() == 0 {
            8
        } else {
            self.period_spec()
        }
    }

    fn period(&self) -> (r: u8)
        ensures
            r == self.period_spec(),
    {
        (self.value >> 4u8) & 0b111
    }

    fn negate(&self) -> (r: bool)
        ensures
            r == self.negate_spec(),
    {
        (self.value & 0b1000) != 0
    }

    fn shift(&self) -> (r: u8)
        ensures
            r == self.shift_spec(),
            r < 8,
    {
        let v = self.value;
        proof {
            assert(v & 0b111 < 8) by (bit_vector);
        }
        self.value & 0b111
    }

    fn period_or_8(&self) -> (r: u8)
        ensures
            r == self.period_or_8_spec(),
    {
        let p = self.period();
        if p == 0 {
            8
        } else {
            p
        }
    }

    pub fn read(&self) -> (r: u8)
        ensures
            r == self.value,
    {
        self.value
    }

    /// Writes the sweep register; returns whether clearing the negate bit after a negated
    /// calculation disables the channel.
    pub open spec fn write_spec(self, value: u8) -> (Sweep, bool) {
        (
            Sweep { value: value & 0x7F, ..self },
            self.negate_spec() && value & 0b1000 == 0 && self.used_negate,
        )
    }

    pub fn write(&mut self, value: u8) -> (r: bool)
        ensures
            (*final(self), r) == old(self).write_spec(value),
    {
        let disabled_by_negate_clear = self.negate() && !Self::value_negate(value)
            && self.used_negate;
        self.value = value & 0x7F;
        disabled_by_negate_clear
    }

    /// The next period that a sweep calculation gives, or `None` where it overflows 11 bits.
    pub open spec fn calculate_spec(&self) -> Option<u16> {
        let delta = self.shadow >> self.shift_spec();
        let next = if self.negate_spec() {
            ((self.shadow - delta + 0x10000) % 0x10000) as u16
        } else {
            ((self.shadow + delta) % 0x10000) as u16
        };
        if next <= 0x07FF {
            Some(next)
        } else {
            None
        }
    }

    fn calculate(&mut self) -> (r: Option<u16>)
        ensures
            r == old(self).calculate_spec(),
            *final(self) == (Sweep {
                used_negate: old(self).used_negate || old(self).negate_spec(),
                ..*old(self)
            }),
    {
        let delta = self.shadow >> self.shift();
        let next = if self.negate() {
            self.used_negate = true;
            self.shadow.wrapping_sub(delta)
        } else {
            self.shadow.wrapping_add(delta)
        };
        if next <= 0x07FF {
            Some(next)
        } else {
            None
        }
    }

    pub open spec fn triggered(self, period: Period) -> Sweep {
        Sweep {
            shadow: period.value,
            counter: self.period_or_8_spec(),
            enabled: self.period_spec() != 0 || self.shift_spec() != 0,
            used_negate: false,
            ..self
        }
    }

    /// The sweep after a trigger from `period`, and whether the channel stays on.
    pub open spec fn trigger_spec(self, period: Period) -> (Sweep, bool) {
        if self.shift_spec() == 0 {
            (self.triggered(period), true)
        } else {
            (
                Sweep { used_negate: self.negate_spec(), ..self.triggered(period) },
                self.triggered(period).calculate_spec() is Some,
            )
        }
    }

    /// Restarts the sweep from `period`; returns false where the first calculation overflows.
    pub fn trigger(&mut self, period: &Period) -> (r: bool)
        ensures
            (*final(self), r) == old(self).trigger_spec(*period),
    {
        self.shadow = period.value;
        self.counter = self.period_or_8();
        self.enabled = self.period() != 0 || self.shift() != 0;
        self.used_negate = false;
        self.shift() == 0 || self.calculate().is_some()
    }

    /// The sweep and the period after one sweep tick, and whether the channel stays on.
    pub open spec fn step_spec(self, period: Period) -> (Sweep, Period, bool) {
        let counter: u8 = if self.counter == 0 {
            0
        } else {
            (self.counter - 1) as u8
        };
        let s2 = Sweep { counter: self.period_or_8_spec(), ..self };
        let used = s2.used_negate || s2.negate_spec();
        if counter != 0 {
            (Sweep { counter, ..self }, period, true)
        } else if !self.enabled || self.period_spec() == 0 {
            (s2, period, true)
        } else {
            match s2.calculate_spec() {
                None => (Sweep { used_negate: used, ..s2 }, period, false),
                Some(next) => if s2.shift_spec() == 0 {
                    (Sweep { used_negate: used, ..s2 }, period, true)
                } else {
                    let s3 = Sweep { shadow: next, used_negate: used, ..s2 };
                    (
                        Sweep { used_negate: used || s3.negate_spec(), ..s3 },
                        Period { value: next, ..period },
                        s3.calculate_spec() is Some,
                    )
                },
            }
        }
    }

    /// One sweep tick of the frame sequencer: may write a new period; returns false where the
    /// channel is to be disabled by an overflow.
    pub fn step(&mut self, period: &mut Period) -> (r: bool)
        requires
            old(period).wf(),
        ensures
            final(period).wf(),
            (*final(self), *final(period), r) == old(self).step_spec(*old(period)),
    {
        self.counter = self.counter.saturating_sub(1);
        if self.counter != 0 {
            return true;
        }
        self.counter = self.period_or_8();
        if !self.enabled || self.period() == 0 {
            return true;
        }
        let next = match self.calculate() {
            Some(next) => next,
            None => return false,
        };
        if self.shift() != 0 {
            self.shadow = next;
            period.value = next;
            if self.calculate().is_none() {
                return false;
            }
        }
        true
    }

    fn value_negate(value: u8) -> (r: bool)
        ensures
            r == (value & 0b1000 != 0),
    {
        (value & 0b1000) != 0
    }
}

/// The noise generator of channel 4: a divider and a linear-feedback shift register.
#[derive(Debug, Clone, Copy)]
pub struct Noise {
    pub value: u8,
    pub timer: usize,
    pub lfsr: u16,
}

/// The base divisors that bits 0 to 2 of the noise register select.
pub open spec fn divisor(code: u8) -> int {
    if code == 0 {
        8
    } else {
        16 * code as int
    }
}

/// The LFSR after one shift: the XOR of its two low bits enters at bit 14, and at bit 6 too in
/// 7-bit mode.
pub open spec fn lfsr_next(lfsr: u16, width_mode: bool) -> u16 {
    let feedback = (lfsr ^ (lfsr >> 1u16)) & 1;
    let shifted = (lfsr >> 1u16) | (feedback << 14u16);
    if width_mode {
        (shifted & !(1u16 << 6u16)) | (feedback << 6u16)
    } else {
        shifted
    }
}

/// The LFSR after `n` shifts.
pub open spec fn lfsr_after(lfsr: u16, width_mode: bool, n: nat) -> u16
    decreases n,
{
    if n == 0 {
        lfsr
    } else {
        lfsr_next(lfsr_after(lfsr, width_mode, (n - 1) as nat), width_mode)
    }
}

impl Noise {
    pub fn new() -> (r: Self)
        ensures
            r.value == 0 && r.timer == 0 && r.lfsr == 0x7FFF,
    {
        Self { value: 0, timer: 0, lfsr: 0x7FFF }
    }

    pub open spec fn clock_shift_spec(&self) -> u8 {
        self.value >> 4u8
    }

    pub open spec fn width_mode_spec(&self) -> bool {
        self.value & 0b1000 != 0
    }

    /// The number of T-cycles between LFSR clocks.
    pub open spec fn period_spec(&self) -> int {
        divisor(self.value & 0b111) * two_pow(self.clock_shift_spec() as nat)
    }

    /// The timer lies within one period of the slowest divider.
    pub open spec fn wf(&self) -> bool {
        self.timer <= 112 * 0x8000
    }

    pub fn read(&self) -> (r: u8)
        ensures
            r == self.value,
    {
        self.value
    }

    pub fn write(&mut self, value: u8)
        ensures
            *final(self) == (Noise { value, ..*old(self) }),
    {
        self.value = value;
    }

    pub open spec fn trigger_spec(self) -> Noise {
        Noise { lfsr: 0x7FFF, timer: self.period_spec() as usize, ..self }
    }

    /// The generator after `cycles` T-cycles.
    pub open spec fn step_spec(self, cycles: usize) -> Noise {
        let p = self.period_spec();
        let first = if self.timer == 0 {
            p
        } else {
            self.timer as int
        };
        let n: int = if cycles < first {
            0
        } else {
            1 + (cycles - first) / p
        };
        Noise {
            timer: (if cycles < first {
                first - cycles
            } else {
                p - (cycles - first) % p
            }) as usize,
            lfsr: if self.clock_shift_spec() >= 14 {
                self.lfsr
            } else {
                lfsr_after(self.lfsr, self.width_mode_spec(), n as nat)
            },
            ..self
        }
    }

    /// Restarts the LFSR and the divider.
    pub fn trigger(&mut self)
        ensures
            final(self).wf(),
            *final(self) == old(self).trigger_spec(),
    {
        self.lfsr = 0x7FFF;
        self.timer = 0;
        self.reload();
    }

    /// Runs the generator for `cycles` T-cycles: the LFSR shifts once per period ended,
    /// except with clock shifts 14 and 15, which stop it.
    pub fn step(&mut self, cycles: usize)
        requires
            old(self).wf(),
        ensures
            final(self).wf(),
            *final(self) == old(self).step_spec(cycles),
    {
        let mut remaining = cycles;
        if self.timer == 0 {
            self.reload();
        }
        let ghost first = self.timer as int;
        let ghost p = self.period_spec();
        let ghost mut acc: int = 0;
        let ghost lfsr0 = self.lfsr;
        proof {
            lemma_noise_period(*self);
        }
        let mut steps: usize = 0;
        while remaining >= self.timer
            invariant
                self.wf(),
                self.value == old(self).value,
                p == self.period_spec(),
                0 < p <= 112 * 0x8000,
                first > 0,
                self.timer > 0,
                steps + remaining <= cycles,
                steps == 0 ==> remaining == cycles && self.timer == first && acc == 0,
                steps > 0 ==> {
                    &&& self.timer == p
                    &&& remaining as int + first + acc == cycles
                    &&& acc == (steps - 1) * p
                },
                steps <= cycles,
                self.lfsr == if self.clock_shift_spec() >= 14 {
                    lfsr0
                } else {
                    lfsr_after(lfsr0, self.width_mode_spec(), steps as nat)
                },
            decreases remaining,
        {
                        remaining = remaining - self.timer;
            self.timer = 0;
            self.reload();
            proof {
                if steps > 0 {
                    acc = acc + p;
                }
            }
            let ghost previous = steps;
            steps = steps + 1;
            proof {
                let k = steps as int;
                assert(acc == (k - 1) * p) by (nonlinear_arith)
                    requires
                        previous > 0 ==> acc == (previous - 1) * p + p,
                        previous == 0 ==> acc == 0,
                        k == previous + 1,
                ;
            }
            if self.clock_shift() < 14 {
                let lfsr = self.lfsr;
                let feedback = (lfsr ^ (lfsr >> 1u16)) & 1;
                self.lfsr = (lfsr >> 1u16) | (feedback << 14u16);
                if self.width_mode() {
                    self.lfsr = (self.lfsr & !(1u16 << 6u16)) | (feedback << 6u16);
                }
            }
        }
        proof {
            if steps > 0 {
                vstd::arithmetic::div_mod::lemma_fundamental_div_mod_converse(
                    cycles - first,
                    p,
                    steps - 1,
                    remaining as int,
                );
            }
        }
        self.timer = self.timer - remaining;
    }

    /// The channel's output bit: high while the LFSR's low bit is clear.
    pub fn sample(&self) -> (r: u8)
        ensures
            r == if self.lfsr & 1 == 0 {
                1u8
            } else {
                0u8
            },
    {
        if (self.lfsr & 1) == 0 {
            1
        } else {
            0
        }
    }

    fn clock_shift(&self) -> (r: u8)
        ensures
            r == self.clock_shift_spec(),
    {
        self.value >> 4u8
    }

    fn width_mode(&self) -> (r: bool)
        ensures
            r == self.width_mode_spec(),
    {
        (self.value & 0b1000) != 0
    }

    fn reload(&mut self)
        requires
            old(self).timer == 0,
        ensures
            final(self).value == old(self).value,
            final(self).lfsr == old(self).lfsr,
            final(self).timer == old(self).period_spec(),
            0 < final(self).timer <= 112 * 0x8000,
    {
        let code = self.value & 0b111;
        let base: usize = if code == 0 {
            8
        } else {
            16 * code as usize
        };
        let shift = self.clock_shift();
        proof {
            let v = self.value;
            assert(v >> 4u8 < 16) by (bit_vector);
            assert(v & 0b111 < 8) by (bit_vector);
        }
        let mut t: usize = base;
        let mut i: u8 = 0;
        assert(two_pow(0) == 1);
        assert(t == base * two_pow(0));
        while i < shift
            invariant
                i <= shift < 16,
                8 <= base <= 112,
                base == divisor(self.value & 0b111),
                t == base * two_pow(i as nat),
                two_pow(i as nat) <= 0x8000,
            decreases shift - i,
        {
            proof {
                lemma_two_pow_le(i as nat + 1);
                assert(base * two_pow(i as nat + 1) == 2 * (base * two_pow(i as nat))) by (nonlinear_arith)
                    requires
                        two_pow(i as nat + 1) == 2 * two_pow(i as nat),
                ;
                assert(base * two_pow(i as nat + 1) <= 112 * 0x8000) by (nonlinear_arith)
                    requires
                        two_pow(i as nat + 1) <= 0x8000,
                        base <= 112,
                ;
            }
            t = t * 2;
            i = i + 1;
        }
        proof {
            lemma_two_pow_le(i as nat);
            assert(t > 0 && t <= 112 * 0x8000) by (nonlinear_arith)
                requires
                    t == base * two_pow(i as nat),
                    two_pow(i as nat) <= 0x8000,
                    two_pow(i as nat) >= 1,
                    8 <= base <= 112,
            ;
        }
        self.timer = t;
    }
}

/// `2` to the power `n`.
pub open spec fn two_pow(n: nat) -> nat
    decreases n,
{
    if n == 0 {
        1
    } else {
        2 * two_pow((n - 1) as nat)
    }
}

proof fn lemma_two_pow_monotone(m: nat, n: nat)
    requires
        m <= n,
    ensures
        1 <= two_pow(m) <= two_pow(n),
    decreases n,
{
    if n > m {
        lemma_two_pow_monotone(m, (n - 1) as nat);
    } else if n > 0 {
        lemma_two_pow_monotone(0, (n - 1) as nat);
    }
}

proof fn lemma_two_pow_le(n: nat)
    requires
        n <= 15,
    ensures
        1 <= two_pow(n) <= 0x8000,
        n > 0 ==> two_pow(n) == 2 * two_pow((n - 1) as nat),
{
    lemma_two_pow_monotone(n, 15);
    reveal_with_fuel(two_pow, 16);
}

/// The period of the noise divider lies between 8 and `112 * 0x8000` T-cycles.
pub(crate) proof fn lemma_noise_period(noise: Noise)
    ensures
        8 <= noise.period_spec() <= 112 * 0x8000,
{
    let v = noise.value;
    assert(v >> 4u8 < 16) by (bit_vector);
    assert(v & 0b111 < 8) by (bit_vector);
    lemma_two_pow_le((v >> 4u8) as nat);
    let d = divisor(v & 0b111);
    let t = two_pow((v >> 4u8) as nat);
    assert(8 <= d * t <= 112 * 0x8000) by (nonlinear_arith)
        requires
            8 <= d <= 112,
            1 <= t <= 0x8000,
    ;
}

} // verus!

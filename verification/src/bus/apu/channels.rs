use vstd::prelude::*;

use crate::bus::apu::components::{duty_pattern, Duty, Length, Noise, Period, Sweep, VolumeEnvelope};
use crate::Cycles;

verus! {

/// A pulse channel: length counter, duty, volume envelope and period (channel 2).
#[derive(Debug, Clone, Copy)]
pub struct Channel2 {
    pub enabled: bool,
    pub length: Length<64>,
    pub duty: Duty,
    pub volenv: VolumeEnvelope,
    pub period: Period,
}

impl Channel2 {
    /// The power-on state: off, with every counter and register cleared.
    pub open spec fn new_spec() -> Channel2 {
        Channel2 {
            enabled: false,
            length: Length { value: 0, counter: 0 },
            duty: Duty { value: 0, step: 0 },
            volenv: VolumeEnvelope { value: 0, volume: 0, counter: 0 },
            period: Period { value: 0, timer: 0, control: 0 },
        }
    }

    pub fn new() -> (r: Self)
        ensures
            r == Channel2::new_spec(),
            r.wf(),
            !r.enabled,
    {
        Self {
            enabled: false,
            length: Length::new(),
            duty: Duty::new(),
            volenv: VolumeEnvelope::new(),
            period: Period::new(),
        }
    }

    pub open spec fn wf(&self) -> bool {
        self.duty.wf() && self.period.wf()
    }

    pub open spec fn read_spec(&self, offset: u16) -> u8 {
        if offset == 0 {
            (self.duty.value << 6u8) | 0x3F
        } else if offset == 1 {
            self.volenv.value
        } else if offset == 2 {
            0xFF
        } else {
            self.period.read_spec(true) | 0xBF
        }
    }

    /// Reads register NRx1 to NRx4 (`offset` 0 to 3).
    pub fn read(&self, offset: u16) -> (r: u8)
        requires
            offset <= 3,
        ensures
            r == self.read_spec(offset),
    {
        if offset == 0 {
            (self.duty.read() << 6u8) | 0x3F
        } else if offset == 1 {
            self.volenv.read()
        } else if offset == 2 {
            0xFF
        } else {
            self.period.read(true) | 0xBF
        }
    }

    pub open spec fn trigger_spec(self) -> Channel2 {
        let volenv = self.volenv.trigger_spec();
        Channel2 {
            length: self.length.trigger_spec(),
            period: self.period.trigger_spec(4),
            volenv,
            enabled: volenv.dac_enabled_spec(),
            ..self
        }
    }

    /// The channel after a write of `value` to register `offset`, and whether it triggered.
    pub open spec fn write_spec(self, offset: u16, value: u8) -> (Channel2, bool) {
        if offset == 0 {
            (
                Channel2 {
                    length: self.length.write_spec(value & 0x3F),
                    duty: Duty { value: (value >> 6u8) & 0b11, ..self.duty },
                    ..self
                },
                false,
            )
        } else if offset == 1 {
            let volenv = VolumeEnvelope { value, ..self.volenv };
            (
                Channel2 {
                    volenv,
                    enabled: self.enabled && volenv.dac_enabled_spec(),
                    ..self
                },
                false,
            )
        } else if offset == 2 {
            (Channel2 { period: self.period.write_spec(false, value), ..self }, false)
        } else {
            let c = Channel2 { period: self.period.write_spec(true, value), ..self };
            if value & 0x80 != 0 {
                (c.trigger_spec(), true)
            } else {
                (c, false)
            }
        }
    }

    /// Writes register NRx1 to NRx4; returns whether the write triggered the channel.
    pub fn write(&mut self, offset: u16, value: u8) -> (triggered: bool)
        requires
            old(self).wf(),
            offset <= 3,
        ensures
            final(self).wf(),
            (*final(self), triggered) == old(self).write_spec(offset, value),
    {
        let mut triggered = false;
        if offset == 0 {
            proof {
                assert(value & 0x3F <= 64) by (bit_vector);
                assert((value >> 6u8) & 0b11 == value >> 6u8) by (bit_vector);
            }
            self.length.write(value & 0x3F);
            self.duty.write(value >> 6u8);
        } else if offset == 1 {
            self.volenv.write(value);
            if !self.volenv.dac_enabled() {
                self.disable();
            }
        } else if offset == 2 {
            self.period.write(false, value);
        } else {
            triggered = self.period.write(true, value);
            if triggered {
                self.trigger();
            }
        }
        triggered
    }

    /// Restarts the channel; it plays where its DAC is on.
    pub fn trigger(&mut self)
        requires
            old(self).wf(),
        ensures
            final(self).wf(),
            *final(self) == old(self).trigger_spec(),
    {
        self.length.trigger();
        self.period.trigger(4);
        self.volenv.trigger();
        self.enabled = self.volenv.dac_enabled();
    }

    pub open spec fn length_spec(self) -> Channel2 {
        let (length, expired) = self.length.step_spec(self.period.control & 0x40 != 0);
        Channel2 { length, enabled: self.enabled && !expired, ..self }
    }

    /// One length tick: the channel stops when its counter expires.
    pub fn length(&mut self)
        ensures
            *final(self) == old(self).length_spec(),
    {
        let enabled = self.period.length_enabled();
        if self.length.step(enabled) {
            self.disable();
        }
    }

    pub fn envelope(&mut self)
        ensures
            *final(self) == (Channel2 { volenv: old(self).volenv.step_spec(), ..*old(self) }),
    {
        self.volenv.step();
    }

    pub open spec fn cycle_spec(self, cycles: usize) -> Channel2 {
        if !self.enabled {
            self
        } else {
            let (period, steps) = self.period.step_spec(cycles, 4);
            Channel2 {
                period,
                duty: Duty {
                    step: ((self.duty.step + (steps % 256)) % 8) as u8,
                    ..self.duty
                },
                ..self
            }
        }
    }

    /// Runs the channel for `cycles`: the duty position advances once per period.
    pub fn cycle(&mut self, cycles: &Cycles)
        requires
            old(self).wf(),
        ensures
            final(self).wf(),
            *final(self) == old(self).cycle_spec(cycles.0),
    {
        if !self.enabled {
            return;
        }
        let steps = self.period.step(cycles.t(), 4);
        self.duty.step((steps % 256) as u8);
    }

    pub open spec fn output_spec(&self) -> u8 {
        if self.enabled && duty_pattern(self.duty.value, self.duty.step) != 0
            && self.volenv.dac_enabled_spec() {
            self.volenv.volume
        } else {
            0
        }
    }

    /// The channel's sample: its volume while the duty pattern is high, else 0.
    pub fn output(&self) -> (r: u8)
        requires
            self.wf(),
        ensures
            r == self.output_spec(),
    {
        if self.enabled && self.duty.sample() != 0 && self.volenv.dac_enabled() {
            self.volenv.volume()
        } else {
            0
        }
    }

    pub fn enabled(&self) -> (r: bool)
        ensures
            r == self.enabled,
    {
        self.enabled
    }

    pub fn disable(&mut self)
        ensures
            *final(self) == (Channel2 { enabled: false, ..*old(self) }),
    {
        self.enabled = false;
    }
}

/// A pulse channel with a frequency sweep (channel 1).
#[derive(Debug, Clone, Copy)]
pub struct Channel1 {
    pub sweep: Sweep,
    pub channel: Channel2,
}

impl Channel1 {
    /// The power-on state: the sweep cleared and the pulse channel in its power-on state.
    pub open spec fn new_spec() -> Channel1 {
        Channel1 {
            sweep: Sweep { value: 0, counter: 0, shadow: 0, enabled: false, used_negate: false },
            channel: Channel2::new_spec(),
        }
    }

    pub fn new() -> (r: Self)
        ensures
            r == Channel1::new_spec(),
            r.wf(),
            !r.channel.enabled,
    {
        Self { sweep: Sweep::new(), channel: Channel2::new() }
    }

    pub open spec fn wf(&self) -> bool {
        self.channel.wf()
    }

    pub open spec fn read_spec(&self, offset: u16) -> u8 {
        if offset == 0 {
            self.sweep.value | 0x80
        } else {
            self.channel.read_spec((offset - 1) as u16)
        }
    }

    /// Reads register NR10 to NR14 (`offset` 0 to 4).
    pub fn read(&self, offset: u16) -> (r: u8)
        requires
            offset <= 4,
        ensures
            r == self.read_spec(offset),
    {
        if offset == 0 {
            self.sweep.read() | 0x80
        } else {
            self.channel.read(offset - 1)
        }
    }

    pub open spec fn write_spec(self, offset: u16, value: u8) -> Channel1 {
        if offset == 0 {
            let (sweep, disable) = self.sweep.write_spec(value);
            Channel1 {
                sweep,
                channel: if disable {
                    Channel2 { enabled: false, ..self.channel }
                } else {
                    self.channel
                },
            }
        } else {
            let (channel, triggered) = self.channel.write_spec((offset - 1) as u16, value);
            if triggered {
                let (sweep, ok) = self.sweep.trigger_spec(channel.period);
                Channel1 {
                    sweep,
                    channel: if ok {
                        channel
                    } else {
                        Channel2 { enabled: false, ..channel }
                    },
                }
            } else {
                Channel1 { channel, ..self }
            }
        }
    }

    /// Writes register NR10 to NR14; a trigger also restarts the sweep.
    pub fn write(&mut self, offset: u16, value: u8)
        requires
            old(self).wf(),
            offset <= 4,
        ensures
            final(self).wf(),
            *final(self) == old(self).write_spec(offset, value),
    {
        if offset == 0 {
            if self.sweep.write(value) {
                self.channel.disable();
            }
        } else {
            if self.channel.write(offset - 1, value) {
                if !self.sweep.trigger(&self.channel.period) {
                    self.channel.disable();
                }
            }
        }
    }

    pub fn cycle(&mut self, cycles: &Cycles)
        requires
            old(self).wf(),
        ensures
            final(self).wf(),
            *final(self) == (Channel1 { channel: old(self).channel.cycle_spec(cycles.0), ..*old(self) }),
    {
        self.channel.cycle(cycles);
    }

    pub fn length(&mut self)
        ensures
            *final(self) == (Channel1 { channel: old(self).channel.length_spec(), ..*old(self) }),
    {
        self.channel.length();
    }

    pub open spec fn sweep_spec(self) -> Channel1 {
        let (sweep, period, ok) = self.sweep.step_spec(self.channel.period);
        Channel1 {
            sweep,
            channel: Channel2 { period, enabled: self.channel.enabled && ok, ..self.channel },
        }
    }

    /// One sweep tick; an overflow stops the channel.
    pub fn sweep(&mut self)
        requires
            old(self).wf(),
        ensures
            final(self).wf(),
            *final(self) == old(self).sweep_spec(),
    {
        if !self.sweep.step(&mut self.channel.period) {
            self.channel.disable();
        }
    }

    pub fn envelope(&mut self)
        ensures
            *final(self) == (Channel1 {
                channel: Channel2 { volenv: old(self).channel.volenv.step_spec(), ..old(self).channel },
                ..*old(self)
            }),
    {
        self.channel.envelope();
    }

    pub fn output(&self) -> (r: u8)
        requires
            self.wf(),
        ensures
            r == self.channel.output_spec(),
    {
        self.channel.output()
    }

    pub fn enabled(&self) -> (r: bool)
        ensures
            r == self.channel.enabled,
    {
        self.channel.enabled()
    }
}

/// The wave channel (channel 3): plays the 32 four-bit samples of wave RAM.
#[derive(Debug, Clone, Copy)]
pub struct Channel3 {
    pub enabled: bool,
    pub dac_enabled: bool,
    pub length: Length<256>,
    pub volume: u8,
    pub period: Period,
    pub sample_index: u8,
    pub sample_buffer: u8,
}

impl Channel3 {
    /// The power-on state: off, DAC off, volume code 0, at the first sample.
    pub open spec fn new_spec() -> Channel3 {
        Channel3 {
            enabled: false,
            dac_enabled: false,
            length: Length { value: 0, counter: 0 },
            volume: 0,
            period: Period { value: 0, timer: 0, control: 0 },
            sample_index: 0,
            sample_buffer: 0,
        }
    }

    pub fn new() -> (r: Self)
        ensures
            r == Channel3::new_spec(),
            r.wf(),
            !r.enabled,
    {
        Self {
            enabled: false,
            dac_enabled: false,
            length: Length::new(),
            volume: 0,
            period: Period::new(),
            sample_index: 0,
            sample_buffer: 0,
        }
    }

    pub open spec fn wf(&self) -> bool {
        self.period.wf() && self.volume <= 3 && self.sample_index < 32
    }

    pub open spec fn read_spec(&self, offset: u16) -> u8 {
        if offset == 0 {
            (if self.dac_enabled {
                0x80u8
            } else {
                0u8
            }) | 0x7F
        } else if offset == 1 || offset == 3 {
            0xFF
        } else if offset == 2 {
            (self.volume << 5u8) | 0x9F
        } else {
            self.period.read_spec(true) | 0xBF
        }
    }

    /// Reads register NR30 to NR34 (`offset` 0 to 4).
    pub fn read(&self, offset: u16) -> (r: u8)
        requires
            offset <= 4,
        ensures
            r == self.read_spec(offset),
    {
        if offset == 0 {
            (if self.dac_enabled {
                0x80u8
            } else {
                0u8
            }) | 0x7F
        } else if offset == 1 || offset == 3 {
            0xFF
        } else if offset == 2 {
            (self.volume << 5u8) | 0x9F
        } else {
            self.period.read(true) | 0xBF
        }
    }

    pub open spec fn trigger_spec(self) -> Channel3 {
        Channel3 {
            length: self.length.trigger_spec(),
            period: self.period.trigger_spec(2),
            sample_index: 0,
            enabled: self.dac_enabled,
            ..self
        }
    }

    pub open spec fn write_spec(self, offset: u16, value: u8) -> Channel3 {
        if offset == 0 {
            let dac = value & 0x80 != 0;
            Channel3 { dac_enabled: dac, enabled: self.enabled && dac, ..self }
        } else if offset == 1 {
            Channel3 { length: self.length.write_spec(value), ..self }
        } else if offset == 2 {
            Channel3 { volume: (value >> 5u8) & 0x03, ..self }
        } else if offset == 3 {
            Channel3 { period: self.period.write_spec(false, value), ..self }
        } else {
            let c = Channel3 { period: self.period.write_spec(true, value), ..self };
            if value & 0x80 != 0 {
                c.trigger_spec()
            } else {
                c
            }
        }
    }

    /// Writes register NR30 to NR34.
    pub fn write(&mut self, offset: u16, value: u8)
        requires
            old(self).wf(),
            offset <= 4,
        ensures
            final(self).wf(),
            *final(self) == old(self).write_spec(offset, value),
    {
        if offset == 0 {
            self.dac_enabled = (value & 0x80) != 0;
            if !self.dac_enabled {
                self.enabled = false;
            }
        } else if offset == 1 {
            self.length.write(value);
        } else if offset == 2 {
            proof {
                assert((value >> 5u8) & 0x03 <= 3) by (bit_vector);
            }
            self.volume = (value >> 5u8) & 0x03;
        } else if offset == 3 {
            self.period.write(false, value);
        } else {
            if self.period.write(true, value) {
                self.trigger();
            }
        }
    }

    pub fn trigger(&mut self)
        requires
            old(self).wf(),
        ensures
            final(self).wf(),
            *final(self) == old(self).trigger_spec(),
    {
        self.length.trigger();
        self.period.trigger(2);
        self.sample_index = 0;
        self.enabled = self.dac_enabled;
    }

    pub fn length(&mut self)
        ensures
            *final(self) == ({
                let (length, expired) = old(self).length.step_spec(
                    old(self).period.control & 0x40 != 0,
                );
                Channel3 { length, enabled: old(self).enabled && !expired, ..*old(self) }
            }),
    {
        let enabled = self.period.length_enabled();
        if self.length.step(enabled) {
            self.enabled = false;
        }
    }

    pub open spec fn cycle_spec(self, cycles: usize, wave_ram: Seq<u8>) -> Channel3 {
        if !self.enabled {
            self
        } else {
            let (period, steps) = self.period.step_spec(cycles, 2);
            let index = ((self.sample_index + steps % 256) % 256 % 32) as u8;
            let byte = wave_ram[(index / 2) as int];
            Channel3 {
                period,
                sample_index: index,
                sample_buffer: if index % 2 == 0 {
                    byte >> 4u8
                } else {
                    byte & 0x0F
                },
                ..self
            }
        }
    }

    /// Runs the channel for `cycles`: moves on one sample per period and loads it.
    pub fn cycle(&mut self, cycles: &Cycles, wave_ram: &[u8; 16])
        requires
            old(self).wf(),
        ensures
            final(self).wf(),
            *final(self) == old(self).cycle_spec(cycles.0, wave_ram@),
    {
        if !self.enabled {
            return;
        }
        let step = self.period.step(cycles.t(), 2);
        let index: u8 = self.sample_index.wrapping_add((step % 256) as u8) % 32;
        self.sample_index = index;
        let byte = wave_ram[(index / 2) as usize];
        self.sample_buffer = if index % 2 == 0 {
            byte >> 4u8
        } else {
            byte & 0x0F
        };
    }

    pub open spec fn output_spec(&self) -> u8 {
        if !self.enabled || !self.dac_enabled {
            0
        } else if self.volume == 0 {
            0
        } else if self.volume == 1 {
            self.sample_buffer
        } else if self.volume == 2 {
            self.sample_buffer >> 1u8
        } else {
            self.sample_buffer >> 2u8
        }
    }

    /// The sample, shifted down by the volume code (0: mute, 1: full, 2: half, 3: quarter).
    pub fn output(&self) -> (r: u8)
        requires
            self.wf(),
        ensures
            r == self.output_spec(),
    {
        if !self.enabled || !self.dac_enabled {
            return 0;
        }
        if self.volume == 0 {
            0
        } else if self.volume == 1 {
            self.sample_buffer
        } else if self.volume == 2 {
            self.sample_buffer >> 1u8
        } else {
            self.sample_buffer >> 2u8
        }
    }

    pub fn enabled(&self) -> (r: bool)
        ensures
            r == self.enabled,
    {
        self.enabled
    }
}

/// The noise channel (channel 4).
#[derive(Debug, Clone, Copy)]
pub struct Channel4 {
    pub enabled: bool,
    pub length: Length<64>,
    pub volenv: VolumeEnvelope,
    pub noise: Noise,
    pub control: u8,
}

impl Channel4 {
    /// The power-on state: off, registers cleared, the shift register all ones.
    pub open spec fn new_spec() -> Channel4 {
        Channel4 {
            enabled: false,
            length: Length { value: 0, counter: 0 },
            volenv: VolumeEnvelope { value: 0, volume: 0, counter: 0 },
            noise: Noise { value: 0, timer: 0, lfsr: 0x7FFF },
            control: 0,
        }
    }

    pub fn new() -> (r: Self)
        ensures
            r == Channel4::new_spec(),
            r.wf(),
            !r.enabled,
    {
        Self {
            enabled: false,
            length: Length::new(),
            volenv: VolumeEnvelope::new(),
            noise: Noise::new(),
            control: 0,
        }
    }

    pub open spec fn wf(&self) -> bool {
        self.noise.wf()
    }

    pub open spec fn read_spec(&self, offset: u16) -> u8 {
        if offset == 0 {
            0xFF
        } else if offset == 1 {
            self.volenv.value
        } else if offset == 2 {
            self.noise.value
        } else {
            self.control | 0xBF
        }
    }

    /// Reads register NR41 to NR44 (`offset` 0 to 3).
    pub fn read(&self, offset: u16) -> (r: u8)
        requires
            offset <= 3,
        ensures
            r == self.read_spec(offset),
    {
        if offset == 0 {
            0xFF
        } else if offset == 1 {
            self.volenv.read()
        } else if offset == 2 {
            self.noise.read()
        } else {
            self.control | 0xBF
        }
    }

    pub open spec fn trigger_spec(self) -> Channel4 {
        let volenv = self.volenv.trigger_spec();
        Channel4 {
            length: self.length.trigger_spec(),
            volenv,
            noise: self.noise.trigger_spec(),
            enabled: volenv.dac_enabled_spec(),
            ..self
        }
    }

    pub open spec fn write_spec(self, offset: u16, value: u8) -> Channel4 {
        if offset == 0 {
            Channel4 { length: self.length.write_spec(value & 0x3F), ..self }
        } else if offset == 1 {
            let volenv = VolumeEnvelope { value, ..self.volenv };
            Channel4 { volenv, enabled: self.enabled && volenv.dac_enabled_spec(), ..self }
        } else if offset == 2 {
            Channel4 { noise: Noise { value, ..self.noise }, ..self }
        } else {
            let c = Channel4 { control: value & 0x40, ..self };
            if value & 0x80 != 0 {
                c.trigger_spec()
            } else {
                c
            }
        }
    }

    /// Writes register NR41 to NR44.
    pub fn write(&mut self, offset: u16, value: u8)
        requires
            old(self).wf(),
            offset <= 3,
        ensures
            final(self).wf(),
            *final(self) == old(self).write_spec(offset, value),
    {
        if offset == 0 {
            proof {
                assert(value & 0x3F <= 64) by (bit_vector);
            }
            self.length.write(value & 0x3F);
        } else if offset == 1 {
            self.volenv.write(value);
            if !self.volenv.dac_enabled() {
                self.enabled = false;
            }
        } else if offset == 2 {
            self.noise.write(value);
        } else {
            self.control = value & 0x40;
            if value & 0x80 != 0 {
                self.trigger();
            }
        }
    }

    pub fn trigger(&mut self)
        requires
            old(self).wf(),
        ensures
            final(self).wf(),
            *final(self) == old(self).trigger_spec(),
    {
        self.length.trigger();
        self.volenv.trigger();
        self.noise.trigger();
        self.enabled = self.volenv.dac_enabled();
    }

    pub fn length(&mut self)
        ensures
            *final(self) == ({
                let (length, expired) = old(self).length.step_spec(old(self).control & 0x40 != 0);
                Channel4 { length, enabled: old(self).enabled && !expired, ..*old(self) }
            }),
    {
        let enabled = self.length_enabled();
        if self.length.step(enabled) {
            self.enabled = false;
        }
    }

    pub fn envelope(&mut self)
        ensures
            *final(self) == (Channel4 { volenv: old(self).volenv.step_spec(), ..*old(self) }),
    {
        self.volenv.step();
    }

    pub fn cycle(&mut self, cycles: &Cycles)
        requires
            old(self).wf(),
        ensures
            final(self).wf(),
            *final(self) == if old(self).enabled {
                Channel4 { noise: old(self).noise.step_spec(cycles.0), ..*old(self) }
            } else {
                *old(self)
            },
    {
        if self.enabled {
            self.noise.step(cycles.t());
        }
    }

    pub open spec fn output_spec(&self) -> u8 {
        if self.enabled && self.volenv.dac_enabled_spec() && self.noise.lfsr & 1 == 0 {
            self.volenv.volume
        } else {
            0
        }
    }

    /// The channel's volume while the noise output is high, else 0.
    pub fn output(&self) -> (r: u8)
        ensures
            r == self.output_spec(),
    {
        if self.enabled && self.volenv.dac_enabled() && self.noise.sample() != 0 {
            self.volenv.volume()
        } else {
            0
        }
    }

    pub fn enabled(&self) -> (r: bool)
        ensures
            r == self.enabled,
    {
        self.enabled
    }

    pub fn length_enabled(&self) -> (r: bool)
        ensures
            r == (self.control & 0x40 != 0),
    {
        (self.control & 0x40) != 0
    }
}

} // verus!

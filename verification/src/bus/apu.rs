pub mod channels;
pub mod components;

use vstd::prelude::*;

use crate::bus::apu::channels::{Channel1, Channel2, Channel3, Channel4};
use crate::util::Address;
use crate::Cycles;

verus! {

broadcast use vstd::array::group_array_axioms;

/// The number of T-cycles per frame-sequencer step (512 Hz).
pub const FRAME_SEQUENCER_PERIOD: usize = 8192;

pub const ADDRESS_CONTROL: u16 = 0xFF26;

pub const ADDRESS_PANNING: u16 = 0xFF25;

pub const ADDRESS_VOLUME_VIN: u16 = 0xFF24;

/// The four channels with the master switch, panning and master volume.
#[derive(Debug, Clone, Copy)]
pub struct AudioState {
    pub enabled: bool,
    pub panning: u8,
    pub volume_vin: u8,
    pub ch1: Channel1,
    pub ch2: Channel2,
    pub ch3: Channel3,
    pub ch4: Channel4,
}

/// Whether an address belongs to the sound unit.
pub open spec fn is_apu_address(a: u16) -> bool {
    (0xFF10 <= a <= 0xFF26) || (0xFF30 <= a <= 0xFF3F)
}

/// One side of the mix: the channels that `panning` routes to the side (bits `shift` to
/// `shift + 3`), summed and scaled by the side's volume (`volume + 1` eighths), at most 255.
pub open spec fn mix_side_spec(panning: u8, outputs: Seq<u8>, shift: u8, volume: u8) -> u8 {
    let routed = |c: int|
        if panning & (1u8 << (c + shift) as u8) != 0 {
            outputs[c] as int
        } else {
            0
        };
    let mixed = (routed(0) + routed(1) + routed(2) + routed(3)) * (volume + 1) / 8;
    if mixed > 255 {
        255
    } else {
        mixed as u8
    }
}

impl AudioState {
    /// The power-on state: sound off, no panning or volume, every channel in its power-on state.
    pub open spec fn new_spec() -> AudioState {
        AudioState {
            enabled: false,
            panning: 0,
            volume_vin: 0,
            ch1: Channel1::new_spec(),
            ch2: Channel2::new_spec(),
            ch3: Channel3::new_spec(),
            ch4: Channel4::new_spec(),
        }
    }

    pub fn new() -> (r: Self)
        ensures
            r == AudioState::new_spec(),
            r.wf(),
            !r.enabled,
            r.panning == 0,
            r.volume_vin == 0,
    {
        Self {
            enabled: false,
            panning: 0,
            volume_vin: 0,
            ch1: Channel1::new(),
            ch2: Channel2::new(),
            ch3: Channel3::new(),
            ch4: Channel4::new(),
        }
    }

    pub open spec fn wf(&self) -> bool {
        self.ch1.wf() && self.ch2.wf() && self.ch3.wf() && self.ch4.wf()
    }

    /// The four channels' samples.
    pub open spec fn outputs(&self) -> Seq<u8> {
        seq![
            self.ch1.channel.output_spec(),
            self.ch2.output_spec(),
            self.ch3.output_spec(),
            self.ch4.output_spec(),
        ]
    }

    /// The left and right samples.
    pub open spec fn mix_spec(&self) -> (u8, u8) {
        if !self.enabled {
            (0, 0)
        } else {
            (
                mix_side_spec(self.panning, self.outputs(), 4, (self.volume_vin >> 4u8) & 0x07),
                mix_side_spec(self.panning, self.outputs(), 0, self.volume_vin & 0x07),
            )
        }
    }

    /// The left and right samples of the present state.
    pub fn mix(&self) -> (r: [u8; 2])
        requires
            self.wf(),
        ensures
            (r[0], r[1]) == self.mix_spec(),
    {
        if !self.enabled {
            return [0, 0];
        }
        let channels = [self.ch1.output(), self.ch2.output(), self.ch3.output(), self.ch4.output()];
        assert(channels@ =~= self.outputs());
        let vin = self.volume_vin;
        assert((vin >> 4u8) & 0x07 <= 7) by (bit_vector);
        assert(vin & 0x07 <= 7) by (bit_vector);
        [
            self.mix_side(&channels, 4, (self.volume_vin >> 4u8) & 0x07),
            self.mix_side(&channels, 0, self.volume_vin & 0x07),
        ]
    }

    pub open spec fn status_spec(&self) -> u8 {
        (if self.ch1.channel.enabled {
            1u8
        } else {
            0u8
        }) | (if self.ch2.enabled {
            2u8
        } else {
            0u8
        }) | (if self.ch3.enabled {
            4u8
        } else {
            0u8
        }) | (if self.ch4.enabled {
            8u8
        } else {
            0u8
        })
    }

    fn status(&self) -> (r: u8)
        ensures
            r == self.status_spec(),
    {
        (if self.ch1.enabled() {
            1u8
        } else {
            0u8
        }) | (if self.ch2.enabled() {
            2u8
        } else {
            0u8
        }) | (if self.ch3.enabled() {
            4u8
        } else {
            0u8
        }) | (if self.ch4.enabled() {
            8u8
        } else {
            0u8
        })
    }

    /// Clears every register but the master switch.
    fn clear_registers(&mut self)
        ensures
            final(self).wf(),
            *final(self) == (AudioState { enabled: old(self).enabled, ..AudioState::new_spec() }),
    {
        self.panning = 0;
        self.volume_vin = 0;
        self.ch1 = Channel1::new();
        self.ch2 = Channel2::new();
        self.ch3 = Channel3::new();
        self.ch4 = Channel4::new();
    }

    fn mix_channel(&self, channel: u8, channels: &[u8; 4], panning_shift: u8) -> (r: u16)
        requires
            channel < 4,
            panning_shift == 0 || panning_shift == 4,
        ensures
            r == if self.panning & (1u8 << (channel + panning_shift) as u8) != 0 {
                channels[channel as int] as int
            } else {
                0
            },
    {
        if self.panning & (1u8 << (channel + panning_shift)) != 0 {
            channels[channel as usize] as u16
        } else {
            0
        }
    }

    fn mix_side(&self, channels: &[u8; 4], panning_shift: u8, volume: u8) -> (r: u8)
        requires
            panning_shift == 0 || panning_shift == 4,
            volume <= 7,
        ensures
            r == mix_side_spec(self.panning, channels@, panning_shift, volume),
    {
        let mut mixed: u16 = 0;
        mixed = mixed + self.mix_channel(0, channels, panning_shift);
        mixed = mixed + self.mix_channel(1, channels, panning_shift);
        mixed = mixed + self.mix_channel(2, channels, panning_shift);
        mixed = mixed + self.mix_channel(3, channels, panning_shift);
        assert(mixed * (volume as u16 + 1) <= 8160) by (nonlinear_arith)
            requires
                mixed <= 1020,
                volume <= 7,
        ;
        let scaled: u16 = (mixed * (volume as u16 + 1)) / 8;
        if 255 < scaled {
            255
        } else {
            scaled as u8
        }
    }
}

/// The sound unit: channels, wave RAM and frame sequencer, with the samples it has produced.
pub struct APU {
    pub state: AudioState,
    pub wave_ram: [u8; 16],
    pub frame_counter: usize,
    pub frame_step: usize,
    /// The samples produced so far with the T-cycles each covers, while a consumer is attached.
    pub samples: Option<Vec<([u8; 2], usize)>>,
}

/// The state after one frame-sequencer step `frame_step`: length counters on even steps,
/// the sweep on steps 2 and 6, envelopes on step 7.
pub open spec fn sequencer_step(s: AudioState, frame_step: usize) -> AudioState {
    let s1 = if frame_step % 2 == 0 {
        let c3 = s.ch3;
        let (l3, e3) = c3.length.step_spec(c3.period.control & 0x40 != 0);
        let c4 = s.ch4;
        let (l4, e4) = c4.length.step_spec(c4.control & 0x40 != 0);
        AudioState {
            ch1: Channel1 { channel: s.ch1.channel.length_spec(), ..s.ch1 },
            ch2: s.ch2.length_spec(),
            ch3: Channel3 { length: l3, enabled: c3.enabled && !e3, ..c3 },
            ch4: Channel4 { length: l4, enabled: c4.enabled && !e4, ..c4 },
            ..s
        }
    } else {
        s
    };
    let s2 = if frame_step == 2 || frame_step == 6 {
        AudioState { ch1: s1.ch1.sweep_spec(), ..s1 }
    } else {
        s1
    };
    if frame_step == 7 {
        AudioState {
            ch1: Channel1 {
                channel: Channel2 { volenv: s2.ch1.channel.volenv.step_spec(), ..s2.ch1.channel },
                ..s2.ch1
            },
            ch2: Channel2 { volenv: s2.ch2.volenv.step_spec(), ..s2.ch2 },
            ch4: Channel4 { volenv: s2.ch4.volenv.step_spec(), ..s2.ch4 },
            ..s2
        }
    } else {
        s2
    }
}

/// The state and step counter after `n` frame-sequencer steps.
pub open spec fn sequenced(s: AudioState, frame_step: usize, n: nat) -> (AudioState, usize)
    decreases n,
{
    if n == 0 {
        (s, frame_step)
    } else {
        let (s1, f1) = sequenced(s, frame_step, (n - 1) as nat);
        (sequencer_step(s1, f1), ((f1 + 1) % 8) as usize)
    }
}

/// The channels after `cycles` T-cycles of running.
pub open spec fn channels_cycled(s: AudioState, wave_ram: Seq<u8>, cycles: usize) -> AudioState {
    if s.enabled {
        AudioState {
            ch1: Channel1 { channel: s.ch1.channel.cycle_spec(cycles), ..s.ch1 },
            ch2: s.ch2.cycle_spec(cycles),
            ch3: s.ch3.cycle_spec(cycles, wave_ram),
            ch4: if s.ch4.enabled {
                Channel4 { noise: s.ch4.noise.step_spec(cycles), ..s.ch4 }
            } else {
                s.ch4
            },
            ..s
        }
    } else {
        s
    }
}

/// The registers and frame-sequencer step after `value` is written to NR52: switching the
/// unit off resets every register to its power-on value, switching it on restarts the frame
/// sequencer, and anything else leaves both as they were.
pub open spec fn control_written(s: AudioState, frame_step: usize, value: u8) -> (AudioState, usize) {
    let on = value & 0x80 != 0;
    if s.enabled && !on {
        (AudioState::new_spec(), 0)
    } else if !s.enabled && on {
        (AudioState { enabled: true, ..s }, 0)
    } else {
        (s, frame_step)
    }
}

/// The registers after `value` is written to the sound register `a` (neither NR52 nor wave
/// RAM); while the unit is off, writes are ignored.
pub open spec fn register_written(s: AudioState, a: u16, value: u8) -> AudioState {
    if !s.enabled || a == 0xFF15 || a == 0xFF1F {
        s
    } else if a == ADDRESS_PANNING {
        AudioState { panning: value, ..s }
    } else if a == ADDRESS_VOLUME_VIN {
        AudioState { volume_vin: value, ..s }
    } else if a <= 0xFF14 {
        AudioState { ch1: s.ch1.write_spec((a - 0xFF10) as u16, value), ..s }
    } else if a <= 0xFF19 {
        AudioState { ch2: s.ch2.write_spec((a - 0xFF16) as u16, value).0, ..s }
    } else if a <= 0xFF1E {
        AudioState { ch3: s.ch3.write_spec((a - 0xFF1A) as u16, value), ..s }
    } else {
        AudioState { ch4: s.ch4.write_spec((a - 0xFF20) as u16, value), ..s }
    }
}

impl APU {
    /// Whether `post` is `pre` after a write of `value` to the sound address `a`.
    pub open spec fn written(pre: APU, post: APU, a: u16, value: u8) -> bool {
        &&& post.samples == pre.samples
        &&& post.frame_counter == pre.frame_counter
        &&& if 0xFF30 <= a <= 0xFF3F {
            &&& post.wave_ram@ == pre.wave_ram@.update(a - 0xFF30, value)
            &&& post.state == pre.state
            &&& post.frame_step == pre.frame_step
        } else if a == ADDRESS_CONTROL {
            &&& post.wave_ram == pre.wave_ram
            &&& (post.state, post.frame_step) == control_written(pre.state, pre.frame_step, value)
        } else {
            &&& post.wave_ram == pre.wave_ram
            &&& post.frame_step == pre.frame_step
            &&& post.state == register_written(pre.state, a, value)
        }
    }

    /// The power-on state: the registers in their power-on state, wave RAM cleared and the
    /// frame sequencer at its first step (whether or not a consumer of samples is attached).
    pub open spec fn powered_on(&self) -> bool {
        &&& self.state == AudioState::new_spec()
        &&& forall|i: int| 0 <= i < 16 ==> self.wave_ram[i] == 0
        &&& self.frame_counter == 0
        &&& self.frame_step == 0
    }

    pub fn new() -> (r: Self)
        ensures
            r.powered_on(),
            r.wf(),
            !r.state.enabled,
            r.frame_counter == 0,
            r.frame_step == 0,
            r.samples is None,
    {
        Self {
            state: AudioState::new(),
            wave_ram: [0u8; 16],
            frame_counter: 0,
            frame_step: 0,
            samples: None,
        }
    }

    pub open spec fn wf(&self) -> bool {
        self.state.wf() && self.frame_counter < FRAME_SEQUENCER_PERIOD && self.frame_step < 8
    }

    pub open spec fn read_spec(&self, a: u16) -> u8 {
        let s = self.state;
        if a == ADDRESS_CONTROL {
            0x70 | (if s.enabled {
                0x80u8
            } else {
                0u8
            }) | s.status_spec()
        } else if a == ADDRESS_PANNING {
            s.panning
        } else if a == ADDRESS_VOLUME_VIN {
            s.volume_vin
        } else if 0xFF10 <= a <= 0xFF14 {
            s.ch1.read_spec((a - 0xFF10) as u16)
        } else if a == 0xFF15 || a == 0xFF1F {
            0xFF
        } else if 0xFF16 <= a <= 0xFF19 {
            s.ch2.read_spec((a - 0xFF16) as u16)
        } else if 0xFF1A <= a <= 0xFF1E {
            s.ch3.read_spec((a - 0xFF1A) as u16)
        } else if 0xFF20 <= a <= 0xFF23 {
            s.ch4.read_spec((a - 0xFF20) as u16)
        } else {
            self.wave_ram[a - 0xFF30]
        }
    }

    pub fn read(&self, address: &Address) -> (r: u8)
        requires
            is_apu_address(address.0),
        ensures
            r == self.read_spec(address.0),
    {
        let a = address.value();
        if a == ADDRESS_CONTROL {
            0x70 | (if self.state.enabled {
                0x80u8
            } else {
                0u8
            }) | self.state.status()
        } else if a == ADDRESS_PANNING {
            self.state.panning
        } else if a == ADDRESS_VOLUME_VIN {
            self.state.volume_vin
        } else if 0xFF10 <= a && a <= 0xFF14 {
            self.state.ch1.read(a - 0xFF10)
        } else if a == 0xFF15 || a == 0xFF1F {
            0xFF
        } else if 0xFF16 <= a && a <= 0xFF19 {
            self.state.ch2.read(a - 0xFF16)
        } else if 0xFF1A <= a && a <= 0xFF1E {
            self.state.ch3.read(a - 0xFF1A)
        } else if 0xFF20 <= a && a <= 0xFF23 {
            self.state.ch4.read(a - 0xFF20)
        } else {
            self.wave_ram[(a - 0xFF30) as usize]
        }
    }

    /// A write to a sound register or to wave RAM; while the unit is off only wave RAM and
    /// the master switch take writes.
    pub fn write(&mut self, address: &Address, value: u8)
        requires
            old(self).wf(),
            is_apu_address(address.0),
        ensures
            final(self).wf(),
            APU::written(*old(self), *final(self), address.0, value),
    {
        let a = address.value();
        if 0xFF30 <= a && a <= 0xFF3F {
            self.wave_ram[(a - 0xFF30) as usize] = value;
        } else if a == ADDRESS_CONTROL {
            self.write_control(value);
        } else if self.state.enabled {
            if a == ADDRESS_PANNING {
                self.state.panning = value;
            } else if a == ADDRESS_VOLUME_VIN {
                self.state.volume_vin = value;
            } else if 0xFF10 <= a && a <= 0xFF14 {
                self.state.ch1.write(a - 0xFF10, value);
            } else if a == 0xFF15 || a == 0xFF1F {
            } else if 0xFF16 <= a && a <= 0xFF19 {
                self.state.ch2.write(a - 0xFF16, value);
            } else if 0xFF1A <= a && a <= 0xFF1E {
                self.state.ch3.write(a - 0xFF1A, value);
            } else {
                self.state.ch4.write(a - 0xFF20, value);
            }
        }
    }

    /// Whether `post` is what `cycles` T-cycles make of the sound unit `pre`.
    #[verifier::opaque]
    pub open spec fn cycled(pre: APU, post: APU, cycles: usize) -> bool {
        let total = pre.frame_counter + cycles;
        let (s1, f1) = sequenced(pre.state, pre.frame_step, (total / FRAME_SEQUENCER_PERIOD as int) as nat);
        let s2 = channels_cycled(s1, pre.wave_ram@, cycles);
        &&& post.wave_ram == pre.wave_ram
        &&& post.frame_counter == total % FRAME_SEQUENCER_PERIOD as int
        &&& post.frame_step == f1
        &&& post.state == s2
        &&& post.samples is Some == pre.samples is Some
        &&& pre.samples matches Some(v) ==> post.samples->0@.len() == v@.len() + 1
            && post.samples->0@.drop_last() == v@ && (post.samples->0@.last().0[0], post.samples->0@.last().0[1])
            == s2.mix_spec() && post.samples->0@.last().1 == cycles
    }

    /// Runs the sound unit for `cycles`: frame-sequencer steps, then the channels; the mixed
    /// sample is handed to the consumer, if one is attached.
    pub fn cycle(&mut self, cycles: &Cycles)
        requires
            old(self).wf(),
            old(self).frame_counter + cycles.0 <= usize::MAX,
        ensures
            final(self).wf(),
            APU::cycled(*old(self), *final(self), cycles.0),
    {
        reveal(APU::cycled);
        let ghost total = self.frame_counter + cycles.0;
        let ghost s0 = self.state;
        let ghost f0 = self.frame_step;
        self.frame_counter = self.frame_counter + cycles.t();
        let mut n: usize = 0;
        while self.frame_counter >= FRAME_SEQUENCER_PERIOD
            invariant
                self.state.wf(),
                self.frame_step < 8,
                total == self.frame_counter + n * FRAME_SEQUENCER_PERIOD,
                total <= usize::MAX,
                (self.state, self.frame_step) == sequenced(s0, f0, n as nat),
                self.wave_ram == old(self).wave_ram,
                self.samples == old(self).samples,
            decreases self.frame_counter,
        {
            self.frame_counter = self.frame_counter - FRAME_SEQUENCER_PERIOD;
            self.frame_sequencer_step();
            proof {
                let f = self.frame_step;
                assert((((f + 1) as usize) & 0b111) == (f + 1) % 8) by (bit_vector)
                    requires
                        f < 8,
                ;
            }
            self.frame_step = (self.frame_step + 1) & 0b111;
            n = n + 1;
        }
        proof {
            vstd::arithmetic::div_mod::lemma_fundamental_div_mod_converse(
                total,
                FRAME_SEQUENCER_PERIOD as int,
                n as int,
                self.frame_counter as int,
            );
        }
        if self.state.enabled {
            self.state.ch1.cycle(cycles);
            self.state.ch2.cycle(cycles);
            self.state.ch3.cycle(cycles, &self.wave_ram);
            self.state.ch4.cycle(cycles);
        }
        let sample = self.state.mix();
        match self.samples.as_mut() {
            Some(samples) => samples.push((sample, cycles.t())),
            None => {},
        }
        proof {
            let total = old(self).frame_counter + cycles.0;
            let (s1, f1) = sequenced(
                old(self).state,
                old(self).frame_step,
                (total / FRAME_SEQUENCER_PERIOD as int) as nat,
            );
            let s2 = channels_cycled(s1, old(self).wave_ram@, cycles.0);
            assert(self.state == s2);
            assert(self.frame_step == f1);
            assert(self.frame_counter == total % FRAME_SEQUENCER_PERIOD as int);
            assert(self.samples is Some == old(self).samples is Some);
            if old(self).samples is Some {
                let v = old(self).samples->0;
                assert(self.samples->0@.len() == v@.len() + 1);
                assert(self.samples->0@.drop_last() == v@);
                assert(self.samples->0@.last().1 == cycles.0);
                assert((self.samples->0@.last().0[0], self.samples->0@.last().0[1]) == s2.mix_spec());
            }
        }
    }

    /// Attaches a consumer: from now on samples are appended to `samples`.
    pub fn set_samples(&mut self, samples: Option<Vec<([u8; 2], usize)>>)
        ensures
            final(self).samples == samples,
            final(self).state == old(self).state,
            final(self).wave_ram == old(self).wave_ram,
            final(self).frame_counter == old(self).frame_counter,
            final(self).frame_step == old(self).frame_step,
    {
        self.samples = samples;
    }

    /// Hands out the samples produced so far; the consumer stays attached.
    pub fn take_samples(&mut self) -> (r: Vec<([u8; 2], usize)>)
        ensures
            old(self).samples matches Some(v) ==> r@ == v@,
            old(self).samples is None ==> r@.len() == 0,
            final(self).samples is Some == old(self).samples is Some,
            final(self).samples matches Some(v) ==> v@.len() == 0,
            final(self).state == old(self).state,
            final(self).wave_ram == old(self).wave_ram,
            final(self).frame_counter == old(self).frame_counter,
            final(self).frame_step == old(self).frame_step,
    {
        match self.samples.take() {
            Some(v) => {
                self.samples = Some(Vec::new());
                v
            },
            None => Vec::new(),
        }
    }

    pub fn mix(&self) -> (r: [u8; 2])
        requires
            self.wf(),
        ensures
            (r[0], r[1]) == self.state.mix_spec(),
    {
        self.state.mix()
    }

    fn write_control(&mut self, value: u8)
        requires
            old(self).wf(),
        ensures
            final(self).wf(),
            final(self).wave_ram == old(self).wave_ram,
            final(self).samples == old(self).samples,
            final(self).frame_counter == old(self).frame_counter,
            (final(self).state, final(self).frame_step) == control_written(
                old(self).state,
                old(self).frame_step,
                value,
            ),
    {
        let enabled = value & 0x80 != 0;
        if self.state.enabled && !enabled {
            self.state.clear_registers();
            self.state.enabled = false;
            self.frame_step = 0;
        } else if !self.state.enabled && enabled {
            self.state.enabled = true;
            self.frame_step = 0;
        }
    }

    fn frame_sequencer_step(&mut self)
        requires
            old(self).state.wf(),
        ensures
            final(self).state.wf(),
            final(self).state == sequencer_step(old(self).state, old(self).frame_step),
            final(self).frame_step == old(self).frame_step,
            final(self).frame_counter == old(self).frame_counter,
            final(self).wave_ram == old(self).wave_ram,
            final(self).samples == old(self).samples,
    {
        let step = self.frame_step;
        if step % 2 == 0 {
            self.state.ch1.length();
            self.state.ch2.length();
            self.state.ch3.length();
            self.state.ch4.length();
        }
        if step == 2 || step == 6 {
            self.state.ch1.sweep();
        }
        if step == 7 {
            self.state.ch1.envelope();
            self.state.ch2.envelope();
            self.state.ch4.envelope();
        }
    }
}

} // verus!

//! The emulation of the AY-3-8910/8912/8913 sound generator.
use vstd::prelude::*;

use core::marker::PhantomData;

use super::{spec_reg_index, AyRegChange, AyRegister};
use crate::audio::AmpLevels;
use crate::audio::sample::SampleDelta;

verus! {

/// Internal clock divisor.
pub const INTERNAL_CLOCK_DIVISOR: i32 = 16;
/// Cpu clock ratio.
pub const HOST_CLOCK_RATIO: i32 = 2;
/// The number of T-states between two steps of the generator.
pub const CLOCK_INCREASE: i32 = 32;

/// Amplitude levels for AY-3-891x, the closest to the specification.
pub const AMPS_I32: [i32; 16] = [
    0x0000_0000, 0x0100_0431, 0x016a_0db9, 0x01ff_ffff,
    0x02d4_1313, 0x03ff_ffff, 0x05a8_2627, 0x07ff_ffff,
    0x0b50_4c4f, 0x0fff_ffff, 0x16a0_a0ff, 0x1fff_ffff,
    0x2d41_397f, 0x3fff_ffff, 0x5a82_7b7f, 0x7fff_ffff,
];

/// Amplitude levels for AY-3-891x, the closest to the specification.
pub const AMPS_I16: [i16; 16] = [
    0x0000, 0x0100, 0x016a, 0x01ff,
    0x02d4, 0x03ff, 0x05a8, 0x07ff,
    0x0b50, 0x0fff, 0x16a0, 0x1fff,
    0x2d40, 0x3fff, 0x5a81, 0x7fff,
];

/// Amplitude levels for AY-3-891x based on measurements, more linear than [AMPS_I16].
pub const FUSE_AMPS_I16: [i16; 16] = [
    0x0000, 0x01c2, 0x029e, 0x03b8,
    0x056b, 0x07ea, 0x0ad8, 0x1186,
    0x15a6, 0x21e0, 0x2d25, 0x3997,
    0x4902, 0x57f8, 0x6c90, 0x7fff,
];

/// Logarithmic amplitude levels, computed for each level.
#[derive(Debug)]
pub struct LogAmpLevels16<T>(PhantomData<T>);

/// The amplitude levels of the AY-3-891x sound chip: [AMPS_I32], [AMPS_I16].
#[derive(Debug)]
pub struct AyAmps<T>(PhantomData<T>);

/// The alternative amplitude levels of the AY-3-891x sound chip: [FUSE_AMPS_I16].
#[derive(Debug)]
pub struct AyFuseAmps<T>(PhantomData<T>);

impl AmpLevels<i32> for AyAmps<i32> {
    fn amp_level(level: u32) -> (r: i32)
        ensures
            r == AMPS_I32@[(level % 16) as int],
    {
        AMPS_I32[(level % 16) as usize]
    }
}

impl AmpLevels<i16> for AyAmps<i16> {
    fn amp_level(level: u32) -> (r: i16)
        ensures
            r == AMPS_I16@[(level % 16) as int],
    {
        AMPS_I16[(level % 16) as usize]
    }
}

impl AmpLevels<i16> for AyFuseAmps<i16> {
    fn amp_level(level: u32) -> (r: i16)
        ensures
            r == FUSE_AMPS_I16@[(level % 16) as int],
    {
        FUSE_AMPS_I16[(level % 16) as usize]
    }
}

/// The envelope shape bit: continue after the first cycle.
pub const ENV_SHAPE_CONT_MASK: u8 = 0b0000_1000;
/// The envelope shape bit: the first cycle rises.
pub const ENV_SHAPE_ATTACK_MASK: u8 = 0b0000_0100;
/// The envelope shape bit: alternate the direction after each cycle.
pub const ENV_SHAPE_ALT_MASK: u8 = 0b0000_0010;
/// The envelope shape bit: hold the level after the first cycle.
pub const ENV_SHAPE_HOLD_MASK: u8 = 0b0000_0001;
/// The envelope level bit: the level falls.
pub const ENV_LEVEL_REV_MASK: u8 = 0b1000_0000;
/// The envelope level bit: the level changes.
pub const ENV_LEVEL_MOD_MASK: u8 = 0b0100_0000;
/// The envelope level bits.
pub const ENV_LEVEL_MASK: u8 = 0x0F;
/// The envelope cycle counter bits.
pub const ENV_CYCLE_MASK: u8 = 0xF0;

/// A type for AY-3-891x amplitude level register values.
#[derive(Default, Clone, Copy, Debug, PartialEq, Eq, Structural)]
pub struct AmpLevel(pub u8);

impl AmpLevel {
    /// Sets the level, keeping the 5 bits the register holds.
    pub fn set(&mut self, level: u8)
        ensures
            final(self).0 == level & 0x1F,
    {
        self.0 = level & 0x1F;
    }

    /// Returns `true` if the level follows the envelope.
    pub fn is_env_control(self) -> (r: bool)
        ensures
            r == (self.0 & 0x10 != 0),
    {
        self.0 & 0x10 != 0
    }
}

/// A type for AY-3-891x mixer controller register values.
#[derive(Default, Clone, Copy, Debug, PartialEq, Eq, Structural)]
pub struct Mixer(pub u8);

impl Mixer {
    /// Returns `true` if the tone of the current channel is enabled.
    pub fn has_tone(self) -> (r: bool)
        ensures
            r == (self.0 & 1 == 0),
    {
        self.0 & 1 == 0
    }

    /// Returns `true` if the noise of the current channel is enabled.
    pub fn has_noise(self) -> (r: bool)
        ensures
            r == (self.0 & 8 == 0),
    {
        self.0 & 8 == 0
    }

    /// Moves to the next channel.
    pub fn next_chan(&mut self)
        ensures
            final(self).0 == old(self).0 >> 1,
    {
        self.0 = self.0 >> 1;
    }
}

/// A type implementing AY-3-891x volume envelope progression.
#[derive(Clone, Copy, Debug, PartialEq, Eq, Structural)]
pub struct EnvelopeControl {
    /// The period of a level step.
    pub period: u16,
    /// The ticks counted towards the next level step.
    pub tick: u16,
    /// The cycle counter (the high 4 bits) and the shape (the low 4 bits).
    pub cycle: u8,
    /// The direction bit, the change bit and the level (the low 4 bits).
    pub level: u8,
}

impl Default for EnvelopeControl {
    fn default() -> (r: Self)
        ensures
            r == (EnvelopeControl { period: 1, tick: 0, cycle: 0, level: 0 }),
    {
        EnvelopeControl { period: 1, tick: 0, cycle: 0, level: 0 }
    }
}

/// `period`, or 1 when `period` is 0; `tick` reduced modulo it when it has reached it.
pub open spec fn spec_periods(period: u16, tick: u16) -> (u16, u16) {
    let p = if period == 0 { 1u16 } else { period };
    (p, if tick >= p { (tick % p) as u16 } else { tick })
}

/// The level bits after one step of a changing envelope level.
pub open spec fn spec_env_step_level(level: u8) -> u8 {
    (level & !ENV_LEVEL_MASK) | ((if level & ENV_LEVEL_REV_MASK == 0 {
        level.wrapping_add(1)
    } else {
        level.wrapping_sub(1)
    }) & ENV_LEVEL_MASK)
}

/// The level bits at the end of an envelope cycle (the cycle counter wrapped to 0).
pub open spec fn spec_env_cycle_end(cycle: u8, level: u8) -> u8 {
    if cycle & ENV_SHAPE_CONT_MASK == 0 {
        0
    } else if cycle & ENV_SHAPE_HOLD_MASK != 0 {
        if cycle & ENV_SHAPE_ALT_MASK == 0 {
            level ^ (ENV_LEVEL_MOD_MASK | ENV_LEVEL_MASK)
        } else {
            level ^ ENV_LEVEL_MOD_MASK
        }
    } else if cycle & ENV_SHAPE_ALT_MASK != 0 {
        level ^ (ENV_LEVEL_REV_MASK | ENV_LEVEL_MASK)
    } else {
        level
    }
}

impl EnvelopeControl {
    /// The envelope with its period set to `period` (0 standing for 1).
    pub open spec fn spec_with_period(self, period: u16) -> EnvelopeControl {
        EnvelopeControl {
            period: spec_periods(period, self.tick).0,
            tick: spec_periods(period, self.tick).1,
            ..self
        }
    }

    /// The envelope started with the given shape.
    pub open spec fn spec_with_shape(self, shape: u8) -> EnvelopeControl {
        EnvelopeControl {
            period: self.period,
            tick: 0,
            cycle: shape & !ENV_CYCLE_MASK,
            level: if shape & ENV_SHAPE_ATTACK_MASK != 0 {
                ENV_LEVEL_MOD_MASK
            } else {
                ENV_LEVEL_MOD_MASK | ENV_LEVEL_REV_MASK | ENV_LEVEL_MASK
            },
        }
    }

    /// The envelope after one tick of the generator.
    pub open spec fn spec_update(self) -> EnvelopeControl {
        if self.tick >= self.period && self.level & ENV_LEVEL_MOD_MASK != 0 {
            let level = spec_env_step_level(self.level);
            let cycle = self.cycle.wrapping_add(0x10);
            EnvelopeControl {
                period: self.period,
                tick: ((self.tick - self.period) as u16).wrapping_add(1),
                cycle,
                level: if cycle & ENV_CYCLE_MASK == 0 {
                    spec_env_cycle_end(cycle, level)
                } else {
                    level
                },
            }
        } else if self.tick >= self.period {
            EnvelopeControl { tick: ((self.tick - self.period) as u16).wrapping_add(1), ..self }
        } else {
            EnvelopeControl { tick: self.tick.wrapping_add(1), ..self }
        }
    }

    /// Starts the envelope of the given shape.
    pub fn set_shape(&mut self, shape: u8)
        ensures
            *final(self) == old(self).spec_with_shape(shape),
            final(self).period == old(self).period,
            final(self).tick == 0,
            final(self).cycle == shape & !ENV_CYCLE_MASK,
            final(self).level == (if shape & ENV_SHAPE_ATTACK_MASK != 0 {
                ENV_LEVEL_MOD_MASK
            } else {
                ENV_LEVEL_MOD_MASK | ENV_LEVEL_REV_MASK | ENV_LEVEL_MASK
            }),
    {
        self.tick = 0;
        self.cycle = shape & !ENV_CYCLE_MASK;
        self.level = if shape & ENV_SHAPE_ATTACK_MASK != 0 {
            ENV_LEVEL_MOD_MASK
        } else {
            ENV_LEVEL_MOD_MASK | ENV_LEVEL_REV_MASK | ENV_LEVEL_MASK
        };
    }

    /// Sets the low byte of the period.
    pub fn set_period_fine(&mut self, perlo: u8)
        ensures
            *final(self) == old(self).spec_with_period((old(self).period & 0xFF00) | perlo as u16),
            (final(self).period, final(self).tick) == spec_periods(
                (old(self).period & 0xFF00) | perlo as u16,
                old(self).tick,
            ),
            final(self).cycle == old(self).cycle,
            final(self).level == old(self).level,
    {
        self.set_period((self.period & 0xFF00) | perlo as u16)
    }

    /// Sets the high byte of the period.
    pub fn set_period_coarse(&mut self, perhi: u8)
        ensures
            *final(self) == old(self).spec_with_period((perhi as int * 256 + old(self).period % 256) as u16),
            (final(self).period, final(self).tick) == spec_periods(
                (perhi as int * 256 + old(self).period % 256) as u16,
                old(self).tick,
            ),
            final(self).cycle == old(self).cycle,
            final(self).level == old(self).level,
    {
        self.set_period(perhi as u16 * 256 + self.period % 256)
    }

    /// Sets the period: 0 stands for 1.
    pub fn set_period(&mut self, period: u16)
        ensures
            *final(self) == old(self).spec_with_period(period),
            (final(self).period, final(self).tick) == spec_periods(period, old(self).tick),
            final(self).cycle == old(self).cycle,
            final(self).level == old(self).level,
    {
        let period = if period == 0 {
            1
        } else {
            period
        };
        self.period = period;
        if self.tick >= period {
            self.tick = self.tick % period;
        }
    }

    /// Returns the current level.
    pub fn get_level(&self) -> (r: u8)
        ensures
            r == self.level & ENV_LEVEL_MASK,
    {
        self.level & ENV_LEVEL_MASK
    }

    /// Returns the shape.
    pub fn get_shape(&self) -> (r: u8)
        ensures
            r == self.cycle & !ENV_CYCLE_MASK,
    {
        self.cycle & !ENV_CYCLE_MASK
    }

    /// Advances the envelope by one tick of the generator and returns its level.
    pub fn update_level(&mut self) -> (r: u8)
        ensures
            *final(self) == old(self).spec_update(),
            r == (if old(self).tick >= old(self).period {
                final(self).level
            } else {
                old(self).level
            }) & ENV_LEVEL_MASK,
    {
        let period = self.period;
        let mut tick = self.tick;
        let mut level = self.level;
        if tick >= period {
            tick = tick - period;
            if level & ENV_LEVEL_MOD_MASK != 0 {
                level = (level & !ENV_LEVEL_MASK) | ((if level & ENV_LEVEL_REV_MASK == 0 {
                    level.wrapping_add(1)
                } else {
                    level.wrapping_sub(1)
                }) & ENV_LEVEL_MASK);
                let cycle = self.cycle.wrapping_add(0x10);
                if cycle & ENV_CYCLE_MASK == 0 {
                    if cycle & ENV_SHAPE_CONT_MASK == 0 {
                        level = 0;
                    } else if cycle & ENV_SHAPE_HOLD_MASK != 0 {
                        if cycle & ENV_SHAPE_ALT_MASK == 0 {
                            level = level ^ (ENV_LEVEL_MOD_MASK | ENV_LEVEL_MASK);
                        } else {
                            level = level ^ ENV_LEVEL_MOD_MASK;
                        }
                    } else if cycle & ENV_SHAPE_ALT_MASK != 0 {
                        level = level ^ (ENV_LEVEL_REV_MASK | ENV_LEVEL_MASK);
                    }
                }
                self.level = level;
                self.cycle = cycle;
            }
        }
        self.tick = tick.wrapping_add(1);
        level & ENV_LEVEL_MASK
    }
}

/// An envelope that has stopped changing stays as it is.
pub proof fn lemma_envelope_stopped(e: EnvelopeControl)
    requires
        e.level & ENV_LEVEL_MOD_MASK == 0,
    ensures
        e.spec_update().level == e.level,
        e.spec_update().cycle == e.cycle,
        e.spec_update().period == e.period,
{
}

/// An envelope that does not continue is silent once its first cycle has ended, and stops.
pub proof fn lemma_envelope_one_shot_ends_silent(e: EnvelopeControl)
    requires
        e.cycle & ENV_SHAPE_CONT_MASK == 0,
        e.level & ENV_LEVEL_MOD_MASK != 0,
        e.tick >= e.period,
        e.cycle.wrapping_add(0x10) & ENV_CYCLE_MASK == 0,
    ensures
        e.spec_update().level == 0,
        e.spec_update().level & ENV_LEVEL_MOD_MASK == 0,
{
    let cycle = e.cycle;
    assert(cycle.wrapping_add(0x10) & ENV_SHAPE_CONT_MASK == 0) by (bit_vector)
        requires
            cycle & ENV_SHAPE_CONT_MASK == 0,
    ;
    assert(0u8 & ENV_LEVEL_MOD_MASK == 0) by (bit_vector);
}

/// The mask of the noise period register.
pub const NOISE_PERIOD_MASK: u8 = 0x1F;

/// A type implementing AY-3-891x noise progression.
#[derive(Clone, Copy, Debug, PartialEq, Eq, Structural)]
pub struct NoiseControl {
    /// The state of the pseudo-random generator.
    pub rng: i32,
    /// The period of the noise.
    pub period: u8,
    /// The ticks counted towards the next step.
    pub tick: u8,
    /// The current output.
    pub low: bool,
}

impl Default for NoiseControl {
    fn default() -> (r: Self)
        ensures
            r == (NoiseControl { rng: 1, period: 0, tick: 0, low: false }),
    {
        NoiseControl { rng: 1, period: 0, tick: 0, low: false }
    }
}

/// The next state of the 17-bit pseudo-random generator.
pub open spec fn spec_rng_next(rng: i32) -> i32 {
    ((-(rng & 1)) as i32 & 0x12000) ^ (rng >> 1)
}

/// The pseudo-random generator stays within 17 bits.
proof fn lemma_rng_bits(rng: i32)
    by (bit_vector)
    requires
        0 <= rng < 0x20000,
    ensures
        0 <= ((-(rng & 1)) as i32 & 0x12000) ^ (rng >> 1) < 0x20000,
        0 <= rng & 1 <= 1,
{
}

impl NoiseControl {
    /// The noise with its period set to `period`: only 5 bits count, and 0 stands for 1.
    pub open spec fn spec_with_period(self, period: u8) -> NoiseControl {
        let p: u8 = if period & NOISE_PERIOD_MASK == 0 { 1 } else { period & NOISE_PERIOD_MASK };
        NoiseControl { period: p, tick: if self.tick >= p { (self.tick % p) as u8 } else { self.tick }, ..self }
    }

    /// The generator state stays within 17 bits.
    pub open spec fn spec_wf(self) -> bool {
        0 <= self.rng < 0x20000
    }

    /// The noise after one tick of the generator.
    pub open spec fn spec_update(self) -> NoiseControl {
        if self.tick >= self.period {
            NoiseControl {
                rng: spec_rng_next(self.rng),
                period: self.period,
                tick: ((self.tick - self.period) as u8).wrapping_add(1),
                low: if ((self.rng + 1) as i32) & 2 != 0 { !self.low } else { self.low },
            }
        } else {
            NoiseControl { tick: self.tick.wrapping_add(1), ..self }
        }
    }

    /// Sets the period: only 5 bits count, and 0 stands for 1.
    pub fn set_period(&mut self, period: u8)
        ensures
            *final(self) == old(self).spec_with_period(period),
            final(self).period <= 31,
            final(self).period == (if period & NOISE_PERIOD_MASK == 0 {
                1
            } else {
                period & NOISE_PERIOD_MASK
            }),
            final(self).tick == (if old(self).tick >= final(self).period {
                old(self).tick % final(self).period
            } else {
                old(self).tick
            }),
            final(self).rng == old(self).rng,
            final(self).low == old(self).low,
    {
        proof {
            assert(period & NOISE_PERIOD_MASK <= 31) by (bit_vector);
        }
        let mut period = period & NOISE_PERIOD_MASK;
        if period == 0 {
            period = 1;
        }
        self.period = period;
        if self.tick >= period {
            self.tick = self.tick % period;
        }
    }

    /// Advances the noise by one tick of the generator and returns whether its output is low.
    pub fn update_is_low(&mut self) -> (r: bool)
        requires
            old(self).spec_wf(),
        ensures
            final(self).spec_wf(),
            *final(self) == old(self).spec_update(),
            r == final(self).low,
    {
        let rng = self.rng;
        let period = self.period;
        let mut tick = self.tick;
        let mut low = self.low;
        if tick >= period {
            tick = tick - period;
            if (rng + 1) & 2 != 0 {
                low = !low;
                self.low = low;
            }
            proof {
                lemma_rng_bits(rng);
            }
            self.rng = (-(rng & 1) & 0x12000) ^ (rng >> 1);
        }
        self.tick = tick.wrapping_add(1);
        low
    }
}

/// The period below which a tone is silent.
pub const TONE_GEN_MIN_THRESHOLD: u16 = 5;
/// The mask of the tone period registers.
pub const TONE_PERIOD_MASK: u16 = 0xFFF;

/// A type implementing AY-3-891x tone progression.
#[derive(Default, Clone, Copy, Debug, PartialEq, Eq, Structural)]
pub struct ToneControl {
    /// The period of the tone.
    pub period: u16,
    /// The ticks counted towards the next change of the output.
    pub tick: u16,
    /// The current output.
    pub low: bool,
}

impl ToneControl {
    /// The period stays within 12 bits.
    pub open spec fn spec_wf(self) -> bool {
        self.period <= TONE_PERIOD_MASK
    }

    /// The tone after one tick of the generator, and whether its output is low.
    pub open spec fn spec_update(self) -> (ToneControl, bool) {
        if self.period < TONE_GEN_MIN_THRESHOLD {
            (ToneControl { tick: self.tick.wrapping_add(2), ..self }, false)
        } else if self.tick >= self.period {
            (ToneControl {
                period: self.period,
                tick: ((self.tick - self.period) as u16).wrapping_add(2),
                low: !self.low,
            }, !self.low)
        } else {
            (ToneControl { tick: self.tick.wrapping_add(2), ..self }, self.low)
        }
    }

    /// Sets the low byte of the period.
    pub fn set_period_fine(&mut self, perlo: u8)
        ensures
            final(self).spec_wf(),
            *final(self) == old(self).spec_with_period((old(self).period & 0xFF00) | perlo as u16),
    {
        self.set_period((self.period & 0xFF00) | perlo as u16)
    }

    /// Sets the high byte of the period.
    pub fn set_period_coarse(&mut self, perhi: u8)
        ensures
            final(self).spec_wf(),
            *final(self) == old(self).spec_with_period((perhi as int * 256 + old(self).period % 256) as u16),
    {
        self.set_period(perhi as u16 * 256 + self.period % 256)
    }

    /// The tone with its period set to `period`: only 12 bits count, and 0 stands for 1.
    pub open spec fn spec_with_period(self, period: u16) -> ToneControl {
        let p = if period & TONE_PERIOD_MASK == 0 { 1u16 } else { period & TONE_PERIOD_MASK };
        ToneControl {
            period: p,
            tick: if self.tick >= p * 2 { (self.tick % ((p * 2) as u16)) as u16 } else { self.tick },
            low: self.low,
        }
    }

    /// Sets the period: only 12 bits count, and 0 stands for 1.
    pub fn set_period(&mut self, period: u16)
        ensures
            final(self).spec_wf(),
            *final(self) == old(self).spec_with_period(period),
    {
        proof {
            assert(period & TONE_PERIOD_MASK <= TONE_PERIOD_MASK) by (bit_vector);
        }
        let mut period = period & TONE_PERIOD_MASK;
        if period == 0 {
            period = 1;
        }
        self.period = period;
        if self.tick >= period * 2 {
            self.tick = self.tick % (period * 2);
        }
    }

    /// Advances the tone by one tick of the generator and returns whether its output is low.
    pub fn update_is_low(&mut self) -> (r: bool)
        ensures
            (*final(self), r) == old(self).spec_update(),
    {
        let period = self.period;
        let mut tick = self.tick;
        let mut low = self.low;
        if period < TONE_GEN_MIN_THRESHOLD {
            low = false;
        } else if tick >= period {
            tick = tick - period;
            low = !low;
            self.low = low;
        }
        self.tick = tick.wrapping_add(2);
        low
    }
}

/// Implements AY-3-8910/8912/8913 programmable sound generator.
///
/// For the implementation of I/O ports see [crate::peripherals::ay].
#[derive(Clone, Debug)]
pub struct Ay3_891xAudio {
    current_ts: i32,
    last_levels: [u8; 3],
    amp_levels: [AmpLevel; 3],
    env_control: EnvelopeControl,
    noise_control: NoiseControl,
    tone_control: [ToneControl; 3],
    mixer: Mixer,
}

/// The level of one channel in one tick: silent while the tone or the noise enabled for it is
/// low, else the envelope level or its own amplitude level.
pub open spec fn spec_channel_level(tone_low: bool, noise_low: bool, mixer: Mixer, amp: AmpLevel, env_level: u8) -> u8 {
    if (mixer.0 & 1 == 0 && tone_low) || (mixer.0 & 8 == 0 && noise_low) {
        0
    } else if amp.0 & 0x10 != 0 {
        env_level
    } else {
        amp.0
    }
}

impl Ay3_891xAudio {
    /// The amplitude level register of the channel `c`.
    pub closed spec fn spec_amp(&self, c: int) -> AmpLevel {
        self.amp_levels@[c]
    }

    /// The tone generator of the channel `c`.
    pub closed spec fn spec_tone(&self, c: int) -> ToneControl {
        self.tone_control@[c]
    }

    /// The envelope generator.
    pub closed spec fn spec_env(&self) -> EnvelopeControl {
        self.env_control
    }

    /// The noise generator.
    pub closed spec fn spec_noise(&self) -> NoiseControl {
        self.noise_control
    }

    /// The mixer register.
    pub closed spec fn spec_mixer(&self) -> Mixer {
        self.mixer
    }

    /// The time of the next tick of the generator in T-states, counted from the start of the frame.
    pub closed spec fn spec_current_ts(&self) -> i32 {
        self.current_ts
    }

    /// The levels of the channels after the last tick.
    pub closed spec fn spec_last_levels(&self) -> [u8; 3] {
        self.last_levels
    }

    /// The generators stay within their ranges.
    pub closed spec fn spec_wf(&self) -> bool {
        &&& self.noise_control.spec_wf()
        &&& self.tone_control@[0].spec_wf()
        &&& self.tone_control@[1].spec_wf()
        &&& self.tone_control@[2].spec_wf()
        &&& self.env_control.period >= 1
        &&& self.noise_control.period <= 31
        &&& forall|c: int| 0 <= c < 3 ==> #[trigger] self.amp_levels@[c].0 <= 0x1F
    }

    /// The generator after `val` is written to the register `reg`.
    pub closed spec fn spec_with_register(self, reg: AyRegister, val: u8) -> Ay3_891xAudio {
        let i = spec_reg_index(reg) as int;
        let t = self.tone_control;
        let a = self.amp_levels;
        if i <= 5 {
            let c = i / 2;
            let old_t = t@[c];
            let new_t = if i % 2 == 0 {
                old_t.spec_with_period((old_t.period & 0xFF00) | val as u16)
            } else {
                old_t.spec_with_period((val as int * 256 + old_t.period % 256) as u16)
            };
            Ay3_891xAudio {
                tone_control: [
                    if c == 0 { new_t } else { t@[0] },
                    if c == 1 { new_t } else { t@[1] },
                    if c == 2 { new_t } else { t@[2] },
                ],
                ..self
            }
        } else if i == 6 {
            Ay3_891xAudio { noise_control: self.noise_control.spec_with_period(val), ..self }
        } else if i == 7 {
            Ay3_891xAudio { mixer: Mixer(val), ..self }
        } else if i <= 10 {
            let c = i - 8;
            let new_a = AmpLevel(val & 0x1F);
            Ay3_891xAudio {
                amp_levels: [
                    if c == 0 { new_a } else { a@[0] },
                    if c == 1 { new_a } else { a@[1] },
                    if c == 2 { new_a } else { a@[2] },
                ],
                ..self
            }
        } else if i == 11 {
            Ay3_891xAudio {
                env_control: self.env_control.spec_with_period((self.env_control.period & 0xFF00) | val as u16),
                ..self
            }
        } else if i == 12 {
            Ay3_891xAudio {
                env_control: self.env_control.spec_with_period(
                    (val as int * 256 + self.env_control.period % 256) as u16,
                ),
                ..self
            }
        } else if i == 13 {
            Ay3_891xAudio { env_control: self.env_control.spec_with_shape(val), ..self }
        } else {
            self
        }
    }

    /// The generator after one tick, and the levels of its three channels.
    pub closed spec fn spec_next_levels(self) -> (Ay3_891xAudio, [u8; 3]) {
        let env = self.env_control.spec_update();
        let env_level = (if self.env_control.tick >= self.env_control.period {
            env.level
        } else {
            self.env_control.level
        }) & ENV_LEVEL_MASK;
        let noise = self.noise_control.spec_update();
        let m0 = self.mixer;
        let m1 = Mixer(m0.0 >> 1);
        let m2 = Mixer(m1.0 >> 1);
        let (t0, low0) = if m0.0 & 1 == 0 { self.tone_control@[0].spec_update() } else { (self.tone_control@[0], false) };
        let (t1, low1) = if m1.0 & 1 == 0 { self.tone_control@[1].spec_update() } else { (self.tone_control@[1], false) };
        let (t2, low2) = if m2.0 & 1 == 0 { self.tone_control@[2].spec_update() } else { (self.tone_control@[2], false) };
        (Ay3_891xAudio {
            env_control: env,
            noise_control: noise,
            tone_control: [t0, t1, t2],
            ..self
        }, [
            spec_channel_level(low0, noise.low, m0, self.amp_levels@[0], env_level),
            spec_channel_level(low1, noise.low, m1, self.amp_levels@[1], env_level),
            spec_channel_level(low2, noise.low, m2, self.amp_levels@[2], env_level),
        ])
    }
}

impl Default for Ay3_891xAudio {
    fn default() -> (r: Self)
        ensures
            r.spec_wf(),
            r.spec_current_ts() == 0,
            r.spec_last_levels() == [0u8, 0u8, 0u8],
            r.spec_env() == EnvelopeControl::default_spec(),
            r.spec_noise() == (NoiseControl { rng: 1, period: 0, tick: 0, low: false }),
            r.spec_mixer() == Mixer(0),
            forall|c: int| 0 <= c < 3 ==> #[trigger] r.spec_tone(c) == (ToneControl { period: 0, tick: 0, low: false })
                && r.spec_amp(c) == AmpLevel(0),
    {
        let tone = ToneControl { period: 0, tick: 0, low: false };
        Ay3_891xAudio {
            current_ts: 0,
            last_levels: [0, 0, 0],
            amp_levels: [AmpLevel(0), AmpLevel(0), AmpLevel(0)],
            env_control: EnvelopeControl { period: 1, tick: 0, cycle: 0, level: 0 },
            noise_control: NoiseControl { rng: 1, period: 0, tick: 0, low: false },
            tone_control: [tone, tone, tone],
            mixer: Mixer(0),
        }
    }
}

impl EnvelopeControl {
    /// The envelope of a generator that has just been created.
    pub open spec fn default_spec() -> EnvelopeControl {
        EnvelopeControl { period: 1, tick: 0, cycle: 0, level: 0 }
    }
}

impl Ay3_891xAudio {
    /// Resets the internal state to the one initialized with.
    pub fn reset(&mut self)
        ensures
            final(self).spec_wf(),
            final(self).spec_current_ts() == 0,
            final(self).spec_last_levels() == [0u8, 0u8, 0u8],
            final(self).spec_env() == EnvelopeControl::default_spec(),
            final(self).spec_noise() == (NoiseControl { rng: 1, period: 0, tick: 0, low: false }),
            final(self).spec_mixer() == Mixer(0),
            forall|c: int| 0 <= c < 3 ==> #[trigger] final(self).spec_tone(c) == (ToneControl { period: 0, tick: 0, low: false })
                && final(self).spec_amp(c) == AmpLevel(0),
    {
        *self = Ay3_891xAudio::default();
    }

    /// Updates the value of one of the sound generator registers for the indicated `reg` register,
    /// with the value given in `val`.
    ///
    /// This method can be used to instantly set the state of the sound generator without the need
    /// to generate audio pulses.
    pub fn update_register(&mut self, reg: AyRegister, val: u8)
        requires
            old(self).spec_wf(),
        ensures
            final(self).spec_wf(),
            *final(self) == old(self).spec_with_register(reg, val),
    {
        match reg {
            AyRegister::ToneFineA | AyRegister::ToneFineB | AyRegister::ToneFineC => {
                let c = usize::from(reg) / 2;
                let mut tone = self.tone_control[c];
                tone.set_period_fine(val);
                self.tone_control[c] = tone;
            },
            AyRegister::ToneCoarseA | AyRegister::ToneCoarseB | AyRegister::ToneCoarseC => {
                let c = usize::from(reg) / 2;
                let mut tone = self.tone_control[c];
                tone.set_period_coarse(val);
                self.tone_control[c] = tone;
            },
            AyRegister::NoisePeriod => {
                self.noise_control.set_period(val);
            },
            AyRegister::MixerControl => {
                self.mixer = Mixer(val);
            },
            AyRegister::AmpLevelA | AyRegister::AmpLevelB | AyRegister::AmpLevelC => {
                let c = usize::from(reg) - 8;
                let mut amp = self.amp_levels[c];
                amp.set(val);
                proof {
                    assert(val & 0x1F <= 0x1F) by (bit_vector);
                }
                self.amp_levels[c] = amp;
            },
            AyRegister::EnvPerFine => {
                self.env_control.set_period_fine(val);
            },
            AyRegister::EnvPerCoarse => {
                self.env_control.set_period_coarse(val);
            },
            AyRegister::EnvShape => {
                self.env_control.set_shape(val);
            },
            _ => {},
        }
        proof {
            let r = old(self).spec_with_register(reg, val);
            assert(self.tone_control =~= r.tone_control);
            assert(self.amp_levels =~= r.amp_levels);
        }
    }

    /// Returns the current tone periods of each channel.
    pub fn get_tone_periods(&self) -> (r: [u16; 3])
        ensures
            r@ == seq![self.spec_tone(0).period, self.spec_tone(1).period, self.spec_tone(2).period],
    {
        let r = [self.tone_control[0].period, self.tone_control[1].period, self.tone_control[2].period];
        assert(r@ =~= seq![self.spec_tone(0).period, self.spec_tone(1).period, self.spec_tone(2).period]);
        r
    }

    /// Returns the current amplitude level of each channel: the envelope level for the channels
    /// that follow the envelope.
    pub fn get_amp_levels(&self) -> (r: [u8; 3])
        requires
            self.spec_wf(),
        ensures
            forall|c: int| 0 <= c < 3 ==> #[trigger] r@[c] == (if self.spec_amp(c).0 & 0x10 != 0 {
                self.spec_env().level & ENV_LEVEL_MASK
            } else {
                self.spec_amp(c).0
            }),
            forall|c: int| 0 <= c < 3 ==> #[trigger] r@[c] <= 15,
    {
        let mut amps: [u8; 3] = [0, 0, 0];
        let mut c: usize = 0;
        while c < 3
            invariant
                c <= 3,
                self.spec_wf(),
                forall|j: int| 0 <= j < c ==> #[trigger] amps@[j] == (if self.spec_amp(j).0 & 0x10 != 0 {
                    self.spec_env().level & ENV_LEVEL_MASK
                } else {
                    self.spec_amp(j).0
                }),
                forall|j: int| 0 <= j < c ==> #[trigger] amps@[j] <= 15,
            decreases 3 - c,
        {
            let level = self.amp_levels[c];
            let value = if level.is_env_control() {
                self.env_control.get_level()
            } else {
                level.0
            };
            proof {
                let e = self.env_control.level;
                let l = level.0;
                assert(e & ENV_LEVEL_MASK <= 15) by (bit_vector);
                assert(l <= 0x1F && l & 0x10 == 0 ==> l <= 15) by (bit_vector);
            }
            amps[c] = value;
            c = c + 1;
        }
        amps
    }

    /// Returns the current noise pitch.
    pub fn get_noise_pitch(&self) -> (r: u8)
        requires
            self.spec_wf(),
        ensures
            r == self.spec_noise().period,
            r <= 31,
    {
        self.noise_control.period
    }

    /// Returns the current value of the mixer register.
    pub fn get_mixer(&self) -> (r: u8)
        ensures
            r == self.spec_mixer().0,
    {
        self.mixer.0
    }

    /// Returns the current level of the envelope generator.
    pub fn get_envelope_level(&self) -> (r: u8)
        ensures
            r == self.spec_env().level & ENV_LEVEL_MASK,
    {
        self.env_control.get_level()
    }

    /// Returns the envelope shape.
    pub fn get_envelope_shape(&self) -> (r: u8)
        ensures
            r == self.spec_env().cycle & !ENV_CYCLE_MASK,
    {
        self.env_control.get_shape()
    }

    /// Returns the envelope period, in the range: [1, 65535].
    pub fn get_envelope_period(&self) -> (r: u16)
        requires
            self.spec_wf(),
        ensures
            r == self.spec_env().period,
            r >= 1,
    {
        self.env_control.period
    }
}

impl Ay3_891xAudio {
    /// The generator after the changes from the `ci`th on that are due at `tick` are applied.
    pub closed spec fn spec_apply_changes(self, changes: Seq<AyRegChange>, ci: int, tick: int) -> (Ay3_891xAudio, int)
        decreases changes.len() - ci,
    {
        if 0 <= ci < changes.len() && changes[ci].time <= tick {
            self.spec_with_register(changes[ci].reg, changes[ci].val).spec_apply_changes(changes, ci + 1, tick)
        } else {
            (self, ci)
        }
    }

    /// Rendering from the tick at `current` up to `end_ts`, with the changes from the `ci`th on:
    /// the generator reached, the levels of each tick, and the time of the first tick not
    /// rendered.
    pub closed spec fn spec_render(self, changes: Seq<AyRegChange>, ci: int, current: int, end_ts: int) -> (Ay3_891xAudio, Seq<(i32, [u8; 3])>, int)
        decreases (if end_ts > current { end_ts - current } else { 0 }),
    {
        if current < end_ts {
            let (s1, ci1) = self.spec_apply_changes(changes, ci, current);
            let (s2, levels) = s1.spec_next_levels();
            let rest = s2.spec_render(changes, ci1, current + CLOCK_INCREASE, end_ts);
            (rest.0, seq![(current as i32, levels)] + rest.1, rest.2)
        } else {
            (self.spec_apply_changes(changes, ci, i32::MAX as int).0, Seq::empty(), current)
        }
    }

    /// The levels of each tick rendered up to `end_ts` with `changes`.
    pub closed spec fn spec_render_levels(self, changes: Seq<AyRegChange>, end_ts: i32) -> Seq<(i32, [u8; 3])> {
        self.spec_render(changes, 0, self.current_ts as int, end_ts as int).1
    }

    /// The generator after rendering up to `end_ts` with `changes`, its time moved back by
    /// `frame_tstates`.
    pub closed spec fn spec_after_render(self, changes: Seq<AyRegChange>, end_ts: i32, frame_tstates: i32) -> Ay3_891xAudio {
        let res = self.spec_render(changes, 0, self.current_ts as int, end_ts as int);
        Ay3_891xAudio {
            current_ts: (res.2 - frame_tstates) as i32,
            last_levels: if res.1.len() > 0 { res.1.last().1 } else { self.last_levels },
            ..res.0
        }
    }

    /// Advances the generator by one tick and returns the levels of the three channels.
    pub fn next_levels(&mut self) -> (r: [u8; 3])
        requires
            old(self).spec_wf(),
        ensures
            final(self).spec_wf(),
            (*final(self), r) == old(self).spec_next_levels(),
    {
        let ghost old_self = *self;
        let env_level = self.env_control.update_level();
        let noise_low = self.noise_control.update_is_low();
        let m0 = self.mixer;
        let mut mixer = self.mixer;
        let mut levels: [u8; 3] = [0, 0, 0];
        let mut tones = self.tone_control;
        let mut c: usize = 0;
        while c < 3
            invariant
                c <= 3,
                mixer.0 == (if c == 0 { m0.0 } else if c == 1 { m0.0 >> 1 } else if c == 2 { (m0.0 >> 1) >> 1 } else { ((m0.0 >> 1) >> 1) >> 1 }),
                forall|j: int| 0 <= j < c ==> #[trigger] tones@[j] == (if (if j == 0 { m0.0 } else if j == 1 { m0.0 >> 1 } else { (m0.0 >> 1) >> 1 }) & 1 == 0 {
                    old_self.tone_control@[j].spec_update().0
                } else {
                    old_self.tone_control@[j]
                }),
                forall|j: int| c <= j < 3 ==> #[trigger] tones@[j] == old_self.tone_control@[j],
                forall|j: int| 0 <= j < c ==> #[trigger] levels@[j] == spec_channel_level(
                    (if (if j == 0 { m0.0 } else if j == 1 { m0.0 >> 1 } else { (m0.0 >> 1) >> 1 }) & 1 == 0 {
                        old_self.tone_control@[j].spec_update().1
                    } else {
                        false
                    }),
                    noise_low,
                    Mixer(if j == 0 { m0.0 } else if j == 1 { m0.0 >> 1 } else { (m0.0 >> 1) >> 1 }),
                    old_self.amp_levels@[j],
                    env_level,
                ),
                self.amp_levels == old_self.amp_levels,
            decreases 3 - c,
        {
            let mut tone = tones[c];
            let tone_low = if mixer.has_tone() {
                tone.update_is_low()
            } else {
                false
            };
            tones[c] = tone;
            let amp = self.amp_levels[c];
            levels[c] = if (mixer.has_tone() && tone_low) || (mixer.has_noise() && noise_low) {
                0
            } else if amp.is_env_control() {
                env_level
            } else {
                amp.0
            };
            mixer.next_chan();
            c = c + 1;
        }
        self.tone_control = tones;
        proof {
            let (s2, lv) = old_self.spec_next_levels();
            assert(self.tone_control =~= s2.tone_control);
            assert(levels =~= lv);
        }
        levels
    }
}

impl Ay3_891xAudio {
    /// Applies the changes from the `ci`th on that are due at `tick` (all of them when `all`).
    fn apply_changes(&mut self, changes: &[AyRegChange], ci: usize, tick: i32, all: bool) -> (r: usize)
        requires
            old(self).spec_wf(),
            ci <= changes@.len(),
            all ==> tick == i32::MAX,
        ensures
            final(self).spec_wf(),
            ci <= r <= changes@.len(),
            (*final(self), r as int) == old(self).spec_apply_changes(changes@, ci as int, tick as int),
            final(self).current_ts == old(self).current_ts,
            final(self).last_levels == old(self).last_levels,
    {
        let mut k = ci;
        while k < changes.len() && (all || changes[k].time <= tick)
            invariant
                ci <= k <= changes@.len(),
                all ==> tick == i32::MAX,
                self.spec_wf(),
                self.current_ts == old(self).current_ts,
                self.last_levels == old(self).last_levels,
                old(self).spec_apply_changes(changes@, ci as int, tick as int) == self.spec_apply_changes(
                    changes@,
                    k as int,
                    tick as int,
                ),
            decreases changes@.len() - k,
        {
            let change = changes[k];
            self.update_register(change.reg, change.val);
            k = k + 1;
        }
        k
    }

    /// Advances the generator tick by tick, up to `end_ts`, applying each register change when
    /// its time has come, and returns the time and the levels of the three channels of each tick.
    ///
    /// The changes are expected in the order of their time; those left when `end_ts` is reached
    /// are applied too. The time of the generator is then moved back by `frame_tstates`.
    pub fn render_levels(&mut self, changes: &[AyRegChange], end_ts: i32, frame_tstates: i32) -> (r: Vec<(i32, [u8; 3])>)
        requires
            old(self).spec_wf(),
            end_ts <= i32::MAX - CLOCK_INCREASE,
            frame_tstates >= 0,
            old(self).spec_current_ts() - frame_tstates >= i32::MIN,
            end_ts - frame_tstates >= i32::MIN,
        ensures
            final(self).spec_wf(),
            r@ == old(self).spec_render_levels(changes@, end_ts),
            *final(self) == old(self).spec_after_render(changes@, end_ts, frame_tstates),
    {
        let ghost start = *self;
        let mut levels: Vec<(i32, [u8; 3])> = Vec::new();
        let mut ci: usize = 0;
        let mut current: i32 = self.current_ts;
        let mut tone_levels: [u8; 3] = self.last_levels;
        while current < end_ts
            invariant
                self.spec_wf(),
                ci <= changes@.len(),
                end_ts <= i32::MAX - CLOCK_INCREASE,
                start.current_ts <= current || current >= end_ts || current == start.current_ts,
                current >= start.current_ts,
                self.current_ts == start.current_ts,
                self.last_levels == start.last_levels,
                ({
                    let total = start.spec_render(changes@, 0, start.current_ts as int, end_ts as int);
                    let rest = self.spec_render(changes@, ci as int, current as int, end_ts as int);
                    &&& total.0 == rest.0
                    &&& total.1 == levels@ + rest.1
                    &&& total.2 == rest.2
                }),
                tone_levels == (if levels@.len() > 0 { levels@.last().1 } else { start.last_levels }),
            decreases end_ts + CLOCK_INCREASE - current,
        {
            ci = self.apply_changes(changes, ci, current, false);
            let lv = self.next_levels();
            let ghost before = levels@;
            levels.push((current, lv));
            tone_levels = lv;
            proof {
                assert(levels@ =~= before + seq![(current, lv)]);
                let rest = self.spec_render(changes@, ci as int, current + CLOCK_INCREASE, end_ts as int);
                assert(before + (seq![(current, lv)] + rest.1) =~= levels@ + rest.1);
            }
            current = current + CLOCK_INCREASE;
        }
        let _ = self.apply_changes(changes, ci, i32::MAX, true);
        self.current_ts = current - frame_tstates;
        self.last_levels = tone_levels;
        proof {
            assert(levels@ =~= levels@ + Seq::<(i32, [u8; 3])>::empty());
        }
        levels
    }

    /// Renders square-wave audio pulses as steps of the amplitude of each channel, while
    /// advancing the generator as [Ay3_891xAudio::render_levels] does.
    ///
    /// Returns the steps as `(channel, timestamp, delta)`: `chans` are the target audio channels
    /// for the `[A, B, C]` channels of the generator, and `V` gives the amplitude of each level.
    pub fn render_audio<V: AmpLevels<T>, T: SampleDelta>(
        &mut self,
        changes: &[AyRegChange],
        end_ts: i32,
        frame_tstates: i32,
        chans: [usize; 3],
    ) -> (r: Vec<(usize, i32, T)>)
        requires
            old(self).spec_wf(),
            end_ts <= i32::MAX - CLOCK_INCREASE,
            frame_tstates >= 0,
            old(self).spec_current_ts() - frame_tstates >= i32::MIN,
            end_ts - frame_tstates >= i32::MIN,
        ensures
            final(self).spec_wf(),
            *final(self) == old(self).spec_after_render(changes@, end_ts, frame_tstates),
            forall|k: int| 0 <= k < r@.len() ==> chans@.contains(#[trigger] r@[k].0),
            forall|k: int| 0 <= k < r@.len() ==> exists|i: int| 0 <= i < old(self).spec_render_levels(changes@, end_ts).len()
                && old(self).spec_render_levels(changes@, end_ts)[i].0 == #[trigger] r@[k].1,
    {
        let ghost lv_spec = self.spec_render_levels(changes@, end_ts);
        let last = self.last_levels;
        let mut vols: Vec<T> = Vec::new();
        let mut c: usize = 0;
        while c < 3
            invariant
                c <= 3,
                vols@.len() == c,
            decreases 3 - c,
        {
            vols.push(V::amp_level(last[c] as u32));
            c = c + 1;
        }
        let levels = self.render_levels(changes, end_ts, frame_tstates);
        let mut steps: Vec<(usize, i32, T)> = Vec::new();
        let mut k: usize = 0;
        while k < levels.len()
            invariant
                k <= levels@.len(),
                levels@ == lv_spec,
                vols@.len() == 3,
                forall|j: int| 0 <= j < steps@.len() ==> chans@.contains(#[trigger] steps@[j].0),
                forall|j: int| 0 <= j < steps@.len() ==> exists|i: int| 0 <= i < lv_spec.len()
                    && lv_spec[i].0 == #[trigger] steps@[j].1,
            decreases levels@.len() - k,
        {
            let (tick, lv) = levels[k];
            let mut c: usize = 0;
            while c < 3
                invariant
                    c <= 3,
                    k < levels@.len(),
                    levels@ == lv_spec,
                    tick == lv_spec[k as int].0,
                    vols@.len() == 3,
                    forall|j: int| 0 <= j < steps@.len() ==> chans@.contains(#[trigger] steps@[j].0),
                    forall|j: int| 0 <= j < steps@.len() ==> exists|i: int| 0 <= i < lv_spec.len()
                        && lv_spec[i].0 == #[trigger] steps@[j].1,
                decreases 3 - c,
            {
                let vol = V::amp_level(lv[c] as u32);
                if let Some(delta) = vols[c].sample_delta(vol) {
                    proof {
                        assert(chans@[c as int] == chans[c as int]);
                    }
                    steps.push((chans[c], tick, delta));
                    vols.set(c, vol);
                }
                c = c + 1;
            }
            k = k + 1;
        }
        steps
    }
}

} // verus!

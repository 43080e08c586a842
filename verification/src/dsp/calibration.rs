use super::pink_noise::PinkNoise;
use crate::parameters::calibration_mode::CalibrationMode;
use vstd::prelude::*;

verus! {

/// The ear that the intermittent calibration noise plays in.
#[derive(Clone, Copy, PartialEq, Eq, Debug)]
pub enum Side {
    Left,
    Right,
}

/// Where a sample of the signal chain comes from in a calibration mode.
#[derive(Clone, Copy, PartialEq, Eq, Debug)]
pub enum CalibrationSource {
    /// The incoming audio.
    Input,
    /// A fresh pink noise sample in one ear and silence in the other.
    Noise(Side),
}

/// The phase reached from `start` after `k` steps of a clock whose full period
/// is `2 * half_period` samples.
pub open spec fn phase_after(start: int, k: int, half_period: int) -> int {
    (start + k) % (2 * half_period)
}

/// The side that a phase selects: the first half of the period is left.
pub open spec fn side_of(phase: int, half_period: int) -> Side {
    if phase < half_period {
        Side::Left
    } else {
        Side::Right
    }
}

/// State of the calibration modes: the noise source and the intermittent clock.
pub struct Calibration<F> {
    pub pink_noise: PinkNoise<F>,
    /// Sample counter within the current full period (`2 * half_period`).
    /// `phase < half_period`: noise on L; `phase >= half_period`: noise on R.
    pub phase: u64,
    /// Number of samples per side (500 ms at the session's sample rate).
    pub half_period: u64,
}

impl<F> Calibration<F> {
    /// Calibration state for a session whose half period (samples per side) is
    /// `half_period`, with the noise filter in the cleared state `filter`.
    pub fn new(filter: F, half_period: u64) -> (c: Self)
        ensures
            c.pink_noise.state() == super::pink_noise::PINK_NOISE_SEED,
            c.pink_noise.filter_state() == filter,
            c.phase == 0,
            c.half_period == half_period,
    {
        Self { pink_noise: PinkNoise::new(filter), phase: 0, half_period }
    }

    /// Resets the phase counter and the noise filter; the noise generator keeps
    /// its state.
    pub fn reset(&mut self, cleared: F)
        ensures
            final(self).phase == 0,
            final(self).half_period == old(self).half_period,
            final(self).pink_noise.state() == old(self).pink_noise.state(),
            final(self).pink_noise.filter_state() == cleared,
    {
        self.pink_noise.reset(cleared);
        self.phase = 0;
    }

    /// Advances the intermittent clock by one sample and says which ear the
    /// sample's noise goes to.
    pub fn advance_intermittent(&mut self) -> (side: Side)
        requires
            old(self).half_period > 0,
            2 * old(self).half_period <= u64::MAX,
            old(self).phase < u64::MAX,
        ensures
            final(self).phase == (old(self).phase + 1) % (2 * old(self).half_period as int),
            final(self).phase < 2 * old(self).half_period,
            side == side_of(final(self).phase as int, old(self).half_period as int),
            final(self).half_period == old(self).half_period,
            final(self).pink_noise == old(self).pink_noise,
    {
        self.phase = (self.phase + 1) % (self.half_period * 2);
        if self.phase < self.half_period {
            Side::Left
        } else {
            Side::Right
        }
    }
}

impl<F> Calibration<F> {
    /// Decides where the next sample comes from in calibration mode `mode`:
    /// the input when calibration is off (or `mode` is not a mode), noise on
    /// the left in continuous mode, and in intermittent mode noise on the side
    /// that the intermittent clock, advanced by one sample, selects.
    pub fn next_source(&mut self, mode: u8) -> (src: CalibrationSource)
        requires
            mode == CalibrationMode::INTERMITTENT ==> {
                &&& old(self).half_period > 0
                &&& 2 * old(self).half_period <= u64::MAX
                &&& old(self).phase < u64::MAX
            },
        ensures
            final(self).half_period == old(self).half_period,
            final(self).pink_noise == old(self).pink_noise,
            mode == CalibrationMode::INTERMITTENT ==> {
                &&& final(self).phase == (old(self).phase + 1) % (2 * old(self).half_period as int)
                &&& src == CalibrationSource::Noise(
                    side_of(final(self).phase as int, old(self).half_period as int),
                )
            },
            mode == CalibrationMode::CONTINUOUS ==> final(self).phase == old(self).phase && src
                == CalibrationSource::Noise(Side::Left),
            mode != CalibrationMode::INTERMITTENT && mode != CalibrationMode::CONTINUOUS
                ==> final(self).phase == old(self).phase && src == CalibrationSource::Input,
    {
        if mode == CalibrationMode::OFF {
            CalibrationSource::Input
        } else if mode == CalibrationMode::CONTINUOUS {
            CalibrationSource::Noise(Side::Left)
        } else if mode == CalibrationMode::INTERMITTENT {
            CalibrationSource::Noise(self.advance_intermittent())
        } else {
            CalibrationSource::Input
        }
    }
}

/// The calibration clock is periodic: a full period of `2 * half_period` steps
/// brings it back to the same phase, and so to the same side.
pub proof fn lemma_clock_periodic(start: int, k: int, half_period: int)
    requires
        half_period > 0,
        start >= 0,
        k >= 0,
    ensures
        phase_after(start, k + 2 * half_period, half_period) == phase_after(start, k, half_period),
        side_of(phase_after(start, k + 2 * half_period, half_period), half_period) == side_of(
            phase_after(start, k, half_period),
            half_period,
        ),
        phase_after(phase_after(start, k, half_period), 1, half_period) == phase_after(
            start,
            k + 1,
            half_period,
        ),
{
    let p = 2 * half_period;
    vstd::arithmetic::div_mod::lemma_mod_add_multiples_vanish(start + k, p);
    vstd::arithmetic::div_mod::lemma_add_mod_noop(start + k, 1, p);
    vstd::arithmetic::div_mod::lemma_small_mod(1, p as nat);
    vstd::arithmetic::div_mod::lemma_mod_twice(start + k, p);
    vstd::arithmetic::div_mod::lemma_add_mod_noop((start + k) % p, 1, p);
}

} // verus!

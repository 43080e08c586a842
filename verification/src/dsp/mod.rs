//! The integer side of the signal chain: the noise generator's random source,
//! the intermittent calibration clock and the interaural delay line.
//! The floating-point filters around them live with the audio host glue.

pub mod calibration;
pub mod itd;
pub mod pink_noise;

//! The verified core of the "Take My Headphones" crossfeed plugin and of the
//! plugin framework it shares with the Neural Amp Modeler plugin: parameter
//! definitions and gestures, the integer side of the signal chain (noise
//! generator, calibration clock, delay line), the plugin state format and the
//! factory presets.

pub mod channel;
pub mod dsp;
pub mod gestures;
pub mod gui;
pub mod parameters;
pub mod preset_factory;
pub mod state;
pub mod utils;

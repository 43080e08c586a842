//! Small helpers used across the plugin.

pub mod copy_cstr;
pub mod decibel_conversion;
pub mod text;
pub mod tuples;

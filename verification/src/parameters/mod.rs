//! The parameter framework shared by every plugin parameter.
//!
//! Parameter values are carried in thousandths of the parameter's unit (a
//! cutoff of `822.0` Hz is `822_000`, a slope of `0.707` is `707`). Every
//! value that the plugin defines has at most three decimals, so this is exact;
//! the audio and GUI code turn them into floating point at the edge.

use std::marker::PhantomData;
use vstd::prelude::*;

pub mod angle;
pub mod any;
pub mod bs2b_low_shelf;
pub mod calibration_mode;
pub mod center;
pub mod cutoff;
pub mod feed;
pub mod gain;
pub mod lrswap;
pub mod phase;
pub mod solo;
pub mod xfeed;
pub mod xfeed_slope;

verus! {

/// Gesture flag: the parameter can be changed by dragging.
pub const PARAMETER_GESTURE_DRAG: u8 = 1;

/// Gesture flag: the parameter is reset to its default by a double click.
pub const PARAMETER_GESTURE_DOUBLE_CLICK: u8 = 2;

/// Whether the gesture bit set `gestures` enables the gesture `flag`.
pub open spec fn has_gesture(gestures: u8, flag: u8) -> bool {
    gestures & flag != 0
}

/// The gesture sets that the plugin's parameters use, and what they enable.
pub proof fn lemma_gesture_sets()
    ensures
        has_gesture(PARAMETER_GESTURE_DRAG | PARAMETER_GESTURE_DOUBLE_CLICK, PARAMETER_GESTURE_DRAG),
        has_gesture(PARAMETER_GESTURE_DRAG | PARAMETER_GESTURE_DOUBLE_CLICK, PARAMETER_GESTURE_DOUBLE_CLICK),
        !has_gesture(PARAMETER_GESTURE_DOUBLE_CLICK, PARAMETER_GESTURE_DRAG),
        has_gesture(PARAMETER_GESTURE_DOUBLE_CLICK, PARAMETER_GESTURE_DOUBLE_CLICK),
        !has_gesture(0, PARAMETER_GESTURE_DRAG),
        !has_gesture(0, PARAMETER_GESTURE_DOUBLE_CLICK),
{
    assert((1u8 | 2u8) & 1u8 != 0) by (bit_vector);
    assert((1u8 | 2u8) & 2u8 != 0) by (bit_vector);
    assert(2u8 & 1u8 == 0) by (bit_vector);
    assert(2u8 & 2u8 != 0) by (bit_vector);
    assert(0u8 & 1u8 == 0) by (bit_vector);
    assert(0u8 & 2u8 == 0) by (bit_vector);
}

/// A change of a parameter that a gesture proposes: the parameter's ID and
/// its new value, in thousandths.
pub struct ProposedParamChange {
    pub index: usize,
    pub value: i64,
}

/// A continuous parameter: lower bound, upper bound and default, in thousandths.
#[derive(Clone, Copy)]
pub struct Range {
    pub min: i64,
    pub max: i64,
    pub def: i64,
}

impl Range {
    /// The bounds are ordered and the default lies between them.
    pub open spec fn well_formed(self) -> bool {
        self.min < self.max && self.min <= self.def <= self.max
    }
}

/// A stepped parameter: its options and its default option.
#[derive(Clone, Copy)]
pub struct Select {
    pub options: &'static [u8],
    pub def: u8,
}

impl Select {
    /// The default is one of the options.
    pub open spec fn well_formed(self) -> bool {
        self.options@.contains(self.def)
    }
}

/// A parameter of kind `T` that behaves as `R` (a [`Range`] or a [`Select`]).
#[derive(Copy)]
pub struct Parameter<T, R> {
    pub id: usize,
    pub name: &'static str,
    pub gestures: u8,
    pub behave: R,
    pub _marker_type: PhantomData<T>,
    pub _marker_behaviour: PhantomData<R>,
}

impl<T: Copy, R: Copy> Clone for Parameter<T, R> {
    fn clone(&self) -> (r: Self)
        ensures
            r == *self,
    {
        *self
    }
}

/// A parameter seen as the target of a drag gesture.
#[derive(Copy)]
pub struct ParameterDraggable<'a, T, R> {
    pub inner: &'a Parameter<T, R>,
    pub _marker_type: PhantomData<T>,
    pub _marker_behaviour: PhantomData<R>,
}

impl<'a, T: Copy, R: Copy> Clone for ParameterDraggable<'a, T, R> {
    fn clone(&self) -> (r: Self)
        ensures
            r == *self,
    {
        *self
    }
}

/// A parameter seen as the target of a double-click gesture.
#[derive(Copy)]
pub struct ParameterClickable<'a, T, R> {
    pub inner: &'a Parameter<T, R>,
    pub _marker_type: PhantomData<T>,
    pub _marker_behaviour: PhantomData<R>,
}

impl<'a, T: Copy, R: Copy> Clone for ParameterClickable<'a, T, R> {
    fn clone(&self) -> (r: Self)
        ensures
            r == *self,
    {
        *self
    }
}

} // verus!

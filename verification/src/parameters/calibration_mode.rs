use super::{
    has_gesture, Parameter, ParameterClickable, ProposedParamChange, Select,
    PARAMETER_GESTURE_DOUBLE_CLICK,
};
use std::marker::PhantomData;
use vstd::prelude::*;

verus! {

/// Calibration mode.
///
/// Off (0): normal bs2b processing of incoming audio.
/// Continuous (1): pink noise replaces the input; adjust Cutoff until the stereo
/// image sounds natural.
/// Intermittent (2): alternating L/R mono pink noise (about 500 ms per side);
/// adjust XFeed until the bleed between the sides feels right.
#[derive(Clone, Copy)]
pub struct CalibrationMode;

/// The label shown for a calibration mode value.
pub open spec fn calibration_mode_label(value: u8) -> Seq<char> {
    if value == CalibrationMode::CONTINUOUS {
        "Continuous"@
    } else if value == CalibrationMode::INTERMITTENT {
        "Intermittent"@
    } else {
        "Off"@
    }
}

impl CalibrationMode {
    pub const OFF: u8 = 0;
    pub const CONTINUOUS: u8 = 1;
    pub const INTERMITTENT: u8 = 2;

    /// The label of a mode value; any value that is not a mode reads "Off".
    pub fn label(value: u8) -> (r: &'static str)
        ensures
            r@ == calibration_mode_label(value),
    {
        if value == Self::CONTINUOUS {
            "Continuous"
        } else if value == Self::INTERMITTENT {
            "Intermittent"
        } else {
            "Off"
        }
    }
}

impl Parameter<CalibrationMode, Select> {
    pub const ID: usize = 8;

    /// The parameter's definition: three modes, off by default, reset by a double click.
    pub open spec fn defined(self) -> bool {
        &&& self.id == Self::ID
        &&& self.name@ == "CalibrationMode"@
        &&& self.gestures == PARAMETER_GESTURE_DOUBLE_CLICK
        &&& self.behave.options@ == seq![
            CalibrationMode::OFF,
            CalibrationMode::CONTINUOUS,
            CalibrationMode::INTERMITTENT,
        ]
        &&& self.behave.def == CalibrationMode::OFF
    }

    /// Builds the parameter as [`Self::defined`] describes it.
    pub fn new() -> (p: Self)
        ensures
            p.defined(),
    {
        let p = Self {
            id: Self::ID,
            name: "CalibrationMode",
            gestures: PARAMETER_GESTURE_DOUBLE_CLICK,
            behave: Select {
                options: &[CalibrationMode::OFF, CalibrationMode::CONTINUOUS, CalibrationMode::INTERMITTENT],
                def: CalibrationMode::OFF,
            },
            _marker_type: PhantomData,
            _marker_behaviour: PhantomData,
        };
        assert(p.behave.options@ == seq![0u8, 1u8, 2u8]);
        p
    }

    /// The parameter as a double-click target, if its gestures allow it.
    pub fn as_clickable(&self) -> (r: Option<ParameterClickable<'_, CalibrationMode, Select>>)
        ensures
            r is Some <==> has_gesture(self.gestures, PARAMETER_GESTURE_DOUBLE_CLICK),
            r matches Some(c) ==> *c.inner == *self,
    {
        if self.gestures & PARAMETER_GESTURE_DOUBLE_CLICK != 0 {
            Some(ParameterClickable::<CalibrationMode, Select>::new(self))
        } else {
            None
        }
    }
}

impl<'a> ParameterClickable<'a, CalibrationMode, Select> {
    pub fn new(inner: &'a Parameter<CalibrationMode, Select>) -> (c: Self)
        ensures
            *c.inner == *inner,
    {
        Self { inner, _marker_type: PhantomData, _marker_behaviour: PhantomData }
    }

    /// A double click proposes the default mode (as a value in thousandths).
    pub fn on_double_click(&self) -> (r: Option<ProposedParamChange>)
        ensures
            r == Some(ProposedParamChange { index: self.inner.id, value: (self.inner.behave.def * 1000) as i64 }),
    {
        Some(ProposedParamChange { index: self.inner.id, value: self.inner.behave.def as i64 * 1000 })
    }
}

} // verus!

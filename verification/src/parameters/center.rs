use super::{
    has_gesture, Parameter, ParameterClickable, ParameterDraggable, ProposedParamChange, Range,
    PARAMETER_GESTURE_DOUBLE_CLICK, PARAMETER_GESTURE_DRAG,
};
use std::marker::PhantomData;
use vstd::prelude::*;

verus! {

/// Marker type for the M/S center attenuation parameter (dB).
///
/// The definition of this parameter is not among the plugin's sources at hand.
/// What is recovered: its ID (preset table column), its label ("Center", in dB,
/// on a knob that drags and resets by a double click), its upper end of 0 dB
/// ("no center effect"; lower values push the phantom center outward) and its
/// default of −0.27 dB (the "Default" preset). The lower end of −6 dB is
/// assumed.
#[derive(Clone, Copy)]
pub struct Center;

impl Parameter<Center, Range> {
    pub const ID: usize = 3;

    /// The parameter's definition: draggable and reset by a double click.
    pub open spec fn defined(self) -> bool {
        &&& self.id == Self::ID
        &&& self.name@ == "Center"@
        &&& self.gestures == PARAMETER_GESTURE_DRAG | PARAMETER_GESTURE_DOUBLE_CLICK
        &&& self.behave == (Range { min: -6000i64, max: 0, def: -270i64 })
    }

    /// Builds the parameter as [`Self::defined`] describes it.
    pub fn new() -> (p: Self)
        ensures
            p.defined(),
    {
        Self {
            id: Self::ID,
            name: "Center",
            gestures: PARAMETER_GESTURE_DRAG | PARAMETER_GESTURE_DOUBLE_CLICK,
            behave: Range { min: -6000, max: 0, def: -270 },
            _marker_type: PhantomData,
            _marker_behaviour: PhantomData,
        }
    }

    /// The parameter as a drag target, if its gestures allow dragging.
    pub fn as_draggable(&self) -> (r: Option<ParameterDraggable<'_, Center, Range>>)
        ensures
            r is Some <==> has_gesture(self.gestures, PARAMETER_GESTURE_DRAG),
            r matches Some(d) ==> *d.inner == *self,
    {
        if self.gestures & PARAMETER_GESTURE_DRAG != 0 {
            Some(ParameterDraggable::<Center, Range>::new(self))
        } else {
            None
        }
    }

    /// The parameter as a double-click target, if its gestures allow it.
    pub fn as_clickable(&self) -> (r: Option<ParameterClickable<'_, Center, Range>>)
        ensures
            r is Some <==> has_gesture(self.gestures, PARAMETER_GESTURE_DOUBLE_CLICK),
            r matches Some(c) ==> *c.inner == *self,
    {
        if self.gestures & PARAMETER_GESTURE_DOUBLE_CLICK != 0 {
            Some(ParameterClickable::<Center, Range>::new(self))
        } else {
            None
        }
    }
}

impl<'a> ParameterDraggable<'a, Center, Range> {
    pub fn new(inner: &'a Parameter<Center, Range>) -> (d: Self)
        ensures
            *d.inner == *inner,
    {
        Self { inner, _marker_type: PhantomData, _marker_behaviour: PhantomData }
    }
}

impl<'a> ParameterClickable<'a, Center, Range> {
    pub fn new(inner: &'a Parameter<Center, Range>) -> (c: Self)
        ensures
            *c.inner == *inner,
    {
        Self { inner, _marker_type: PhantomData, _marker_behaviour: PhantomData }
    }

    /// A double click proposes the parameter's default value.
    pub fn on_double_click(&self) -> (r: Option<ProposedParamChange>)
        ensures
            r == Some(ProposedParamChange { index: self.inner.id, value: self.inner.behave.def }),
    {
        Some(ProposedParamChange { index: self.inner.id, value: self.inner.behave.def })
    }
}

} // verus!

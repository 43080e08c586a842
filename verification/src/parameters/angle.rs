use super::{
    has_gesture, Parameter, ParameterClickable, ParameterDraggable, ProposedParamChange, Range,
    PARAMETER_GESTURE_DOUBLE_CLICK, PARAMETER_GESTURE_DRAG,
};
use std::marker::PhantomData;
use vstd::prelude::*;

verus! {

/// Marker type for the virtual speaker angle parameter (degrees).
///
/// The definition of this parameter is not among the plugin's sources at hand.
/// What is recovered: its ID (preset table column), its label ("Angle", in
/// degrees, on a knob that drags and resets by a double click), its range
/// 0–75° (the knob maps linearly to an interaural delay of 0–635 µs, and the
/// delay computation clamps the angle to that range) and its default of 30°
/// (the "Default" preset).
#[derive(Clone, Copy)]
pub struct Angle;

impl Parameter<Angle, Range> {
    pub const ID: usize = 2;

    /// The parameter's definition: draggable and reset by a double click.
    pub open spec fn defined(self) -> bool {
        &&& self.id == Self::ID
        &&& self.name@ == "Angle"@
        &&& self.gestures == PARAMETER_GESTURE_DRAG | PARAMETER_GESTURE_DOUBLE_CLICK
        &&& self.behave == (Range { min: 0, max: 75000, def: 30000 })
    }

    /// Builds the parameter as [`Self::defined`] describes it.
    pub fn new() -> (p: Self)
        ensures
            p.defined(),
    {
        Self {
            id: Self::ID,
            name: "Angle",
            gestures: PARAMETER_GESTURE_DRAG | PARAMETER_GESTURE_DOUBLE_CLICK,
            behave: Range { min: 0, max: 75000, def: 30000 },
            _marker_type: PhantomData,
            _marker_behaviour: PhantomData,
        }
    }

    /// The parameter as a drag target, if its gestures allow dragging.
    pub fn as_draggable(&self) -> (r: Option<ParameterDraggable<'_, Angle, Range>>)
        ensures
            r is Some <==> has_gesture(self.gestures, PARAMETER_GESTURE_DRAG),
            r matches Some(d) ==> *d.inner == *self,
    {
        if self.gestures & PARAMETER_GESTURE_DRAG != 0 {
            Some(ParameterDraggable::<Angle, Range>::new(self))
        } else {
            None
        }
    }

    /// The parameter as a double-click target, if its gestures allow it.
    pub fn as_clickable(&self) -> (r: Option<ParameterClickable<'_, Angle, Range>>)
        ensures
            r is Some <==> has_gesture(self.gestures, PARAMETER_GESTURE_DOUBLE_CLICK),
            r matches Some(c) ==> *c.inner == *self,
    {
        if self.gestures & PARAMETER_GESTURE_DOUBLE_CLICK != 0 {
            Some(ParameterClickable::<Angle, Range>::new(self))
        } else {
            None
        }
    }
}

impl<'a> ParameterDraggable<'a, Angle, Range> {
    pub fn new(inner: &'a Parameter<Angle, Range>) -> (d: Self)
        ensures
            *d.inner == *inner,
    {
        Self { inner, _marker_type: PhantomData, _marker_behaviour: PhantomData }
    }
}

impl<'a> ParameterClickable<'a, Angle, Range> {
    pub fn new(inner: &'a Parameter<Angle, Range>) -> (c: Self)
        ensures
            *c.inner == *inner,
    {
        Self { inner, _marker_type: PhantomData, _marker_behaviour: PhantomData }
    }

    /// A double click proposes the parameter's default value.
    pub fn on_double_click(&self) -> (r: Option<ProposedParamChange>)
        ensures
            r == Some(ProposedParamChange { index: self.inner.id, value: self.inner.behave.def }),
    {
        Some(ProposedParamChange { index: self.inner.id, value: self.inner.behave.def })
    }
}

} // verus!

use super::{
    has_gesture, Parameter, ParameterClickable, ParameterDraggable, ProposedParamChange, Range,
    PARAMETER_GESTURE_DOUBLE_CLICK, PARAMETER_GESTURE_DRAG,
};
use std::marker::PhantomData;
use vstd::prelude::*;

verus! {

/// Marker type for the crossfeed lowpass cutoff parameter (Hz).
///
/// The definition of this parameter is not among the plugin's sources at hand.
/// What is recovered: its ID (the first column of the preset table), its label
/// ("Cutoff", in Hz, on a knob that drags and resets by a double click) and its
/// default of 822 Hz (the "Default" preset). The range 300–2000 Hz is assumed:
/// it is the cutoff range of the bs2b design, whose 1–15 dB feed range the
/// Cutoff parameter also uses.
#[derive(Clone, Copy)]
pub struct Cutoff;

impl Parameter<Cutoff, Range> {
    pub const ID: usize = 0;

    /// The parameter's definition: draggable and reset by a double click.
    pub open spec fn defined(self) -> bool {
        &&& self.id == Self::ID
        &&& self.name@ == "Cutoff"@
        &&& self.gestures == PARAMETER_GESTURE_DRAG | PARAMETER_GESTURE_DOUBLE_CLICK
        &&& self.behave == (Range { min: 300000, max: 2000000, def: 822000 })
    }

    /// Builds the parameter as [`Self::defined`] describes it.
    pub fn new() -> (p: Self)
        ensures
            p.defined(),
    {
        Self {
            id: Self::ID,
            name: "Cutoff",
            gestures: PARAMETER_GESTURE_DRAG | PARAMETER_GESTURE_DOUBLE_CLICK,
            behave: Range { min: 300000, max: 2000000, def: 822000 },
            _marker_type: PhantomData,
            _marker_behaviour: PhantomData,
        }
    }

    /// The parameter as a drag target, if its gestures allow dragging.
    pub fn as_draggable(&self) -> (r: Option<ParameterDraggable<'_, Cutoff, Range>>)
        ensures
            r is Some <==> has_gesture(self.gestures, PARAMETER_GESTURE_DRAG),
            r matches Some(d) ==> *d.inner == *self,
    {
        if self.gestures & PARAMETER_GESTURE_DRAG != 0 {
            Some(ParameterDraggable::<Cutoff, Range>::new(self))
        } else {
            None
        }
    }

    /// The parameter as a double-click target, if its gestures allow it.
    pub fn as_clickable(&self) -> (r: Option<ParameterClickable<'_, Cutoff, Range>>)
        ensures
            r is Some <==> has_gesture(self.gestures, PARAMETER_GESTURE_DOUBLE_CLICK),
            r matches Some(c) ==> *c.inner == *self,
    {
        if self.gestures & PARAMETER_GESTURE_DOUBLE_CLICK != 0 {
            Some(ParameterClickable::<Cutoff, Range>::new(self))
        } else {
            None
        }
    }
}

impl<'a> ParameterDraggable<'a, Cutoff, Range> {
    pub fn new(inner: &'a Parameter<Cutoff, Range>) -> (d: Self)
        ensures
            *d.inner == *inner,
    {
        Self { inner, _marker_type: PhantomData, _marker_behaviour: PhantomData }
    }
}

impl<'a> ParameterClickable<'a, Cutoff, Range> {
    pub fn new(inner: &'a Parameter<Cutoff, Range>) -> (c: Self)
        ensures
            *c.inner == *inner,
    {
        Self { inner, _marker_type: PhantomData, _marker_behaviour: PhantomData }
    }

    /// A double click proposes the parameter's default value.
    pub fn on_double_click(&self) -> (r: Option<ProposedParamChange>)
        ensures
            r == Some(ProposedParamChange { index: self.inner.id, value: self.inner.behave.def }),
    {
        Some(ProposedParamChange { index: self.inner.id, value: self.inner.behave.def })
    }
}

} // verus!

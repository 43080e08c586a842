use super::{
    has_gesture, Parameter, ParameterClickable, ParameterDraggable, ProposedParamChange, Range,
    PARAMETER_GESTURE_DOUBLE_CLICK, PARAMETER_GESTURE_DRAG,
};
use std::marker::PhantomData;
use vstd::prelude::*;

verus! {

/// Marker type for the bs2b direct-path low shelf gain parameter (dB).
///
/// The low shelf attenuates low frequencies of the direct path by this gain
/// and passes high frequencies at unity; `0 dB` leaves the direct path flat.
#[derive(Clone, Copy)]
pub struct Bs2bLowShelf;

impl Parameter<Bs2bLowShelf, Range> {
    pub const ID: usize = 10;

    /// The parameter's definition: draggable and reset by a double click.
    pub open spec fn defined(self) -> bool {
        &&& self.id == Self::ID
        &&& self.name@ == "Low Shelf"@
        &&& self.gestures == PARAMETER_GESTURE_DRAG | PARAMETER_GESTURE_DOUBLE_CLICK
        &&& self.behave == (Range { min: -12000i64, max: 0, def: -3100i64 })
    }

    /// Builds the parameter as [`Self::defined`] describes it.
    pub fn new() -> (p: Self)
        ensures
            p.defined(),
    {
        Self {
            id: Self::ID,
            name: "Low Shelf",
            gestures: PARAMETER_GESTURE_DRAG | PARAMETER_GESTURE_DOUBLE_CLICK,
            behave: Range { min: -12000, max: 0, def: -3100 },
            _marker_type: PhantomData,
            _marker_behaviour: PhantomData,
        }
    }

    /// The parameter as a drag target, if its gestures allow dragging.
    pub fn as_draggable(&self) -> (r: Option<ParameterDraggable<'_, Bs2bLowShelf, Range>>)
        ensures
            r is Some <==> has_gesture(self.gestures, PARAMETER_GESTURE_DRAG),
            r matches Some(d) ==> *d.inner == *self,
    {
        if self.gestures & PARAMETER_GESTURE_DRAG != 0 {
            Some(ParameterDraggable::<Bs2bLowShelf, Range>::new(self))
        } else {
            None
        }
    }

    /// The parameter as a double-click target, if its gestures allow it.
    pub fn as_clickable(&self) -> (r: Option<ParameterClickable<'_, Bs2bLowShelf, Range>>)
        ensures
            r is Some <==> has_gesture(self.gestures, PARAMETER_GESTURE_DOUBLE_CLICK),
            r matches Some(c) ==> *c.inner == *self,
    {
        if self.gestures & PARAMETER_GESTURE_DOUBLE_CLICK != 0 {
            Some(ParameterClickable::<Bs2bLowShelf, Range>::new(self))
        } else {
            None
        }
    }
}

impl<'a> ParameterDraggable<'a, Bs2bLowShelf, Range> {
    pub fn new(inner: &'a Parameter<Bs2bLowShelf, Range>) -> (d: Self)
        ensures
            *d.inner == *inner,
    {
        Self { inner, _marker_type: PhantomData, _marker_behaviour: PhantomData }
    }
}

impl<'a> ParameterClickable<'a, Bs2bLowShelf, Range> {
    pub fn new(inner: &'a Parameter<Bs2bLowShelf, Range>) -> (c: Self)
        ensures
            *c.inner == *inner,
    {
        Self { inner, _marker_type: PhantomData, _marker_behaviour: PhantomData }
    }

    /// A double click proposes the parameter's default value.
    pub fn on_double_click(&self) -> (r: Option<ProposedParamChange>)
        ensures
            r == Some(ProposedParamChange { index: self.inner.id, value: self.inner.behave.def }),
    {
        Some(ProposedParamChange { index: self.inner.id, value: self.inner.behave.def })
    }
}

} // verus!

//! What a click or a drag on a parameter's control does.

use crate::parameters::any::{
    is_parameter_id, parameter_default, parameter_gestures, parameter_is_range, parameter_range, AnyParameter,
};
use crate::parameters::{has_gesture, ProposedParamChange, Range, PARAMETER_GESTURE_DOUBLE_CLICK, PARAMETER_GESTURE_DRAG};
use vstd::prelude::*;

verus! {

/// A double-click gesture on a parameter that accepts one.
pub struct ActiveClick(AnyParameter);

impl ActiveClick {
    /// The parameter that was clicked.
    pub closed spec fn parameter(self) -> AnyParameter {
        self.0
    }

    #[verifier::type_invariant]
    closed spec fn clickable(self) -> bool {
        self.0.defined() && has_gesture(self.0.spec_gestures(), PARAMETER_GESTURE_DOUBLE_CLICK)
    }

    /// Starts a double-click gesture on the parameter `index`: `None` if there is
    /// no such parameter or it is not reset by a double click.
    pub fn from_index(index: usize) -> (r: Option<Self>)
        ensures
            r is Some <==> is_parameter_id(index) && has_gesture(
                parameter_gestures(index),
                PARAMETER_GESTURE_DOUBLE_CLICK,
            ),
            r matches Some(c) ==> c.parameter().defined() && c.parameter().spec_id() == index,
    {
        let param = match AnyParameter::try_from(index) {
            Ok(p) => p,
            Err(()) => return None,
        };
        let gestures = match &param {
            AnyParameter::Cutoff { inner } => inner.gestures,
            AnyParameter::Center { inner } => inner.gestures,
            AnyParameter::Angle { inner } => inner.gestures,
            AnyParameter::Gain { inner } => inner.gestures,
            AnyParameter::XFeed { inner } => inner.gestures,
            AnyParameter::XFeedSlope { inner } => inner.gestures,
            AnyParameter::Bs2bLowShelf { inner } => inner.gestures,
            AnyParameter::CalibrationMode { inner } => inner.gestures,
            AnyParameter::LRSwap { inner } => inner.gestures,
            AnyParameter::Solo { inner } => inner.gestures,
            AnyParameter::Phase { inner } => inner.gestures,
        };
        if gestures & PARAMETER_GESTURE_DOUBLE_CLICK == 0 {
            return None;
        }
        Some(ActiveClick(param))
    }

    /// The change a double click proposes: the parameter's default value.
    pub fn on_double_click(&self) -> (r: Option<ProposedParamChange>)
        ensures
            self.parameter().defined(),
            has_gesture(self.parameter().spec_gestures(), PARAMETER_GESTURE_DOUBLE_CLICK),
            r == Some(
                ProposedParamChange {
                    index: self.parameter().spec_id(),
                    value: self.parameter().spec_default(),
                },
            ),
            r == Some(
                ProposedParamChange {
                    index: self.parameter().spec_id(),
                    value: parameter_default(self.parameter().spec_id()),
                },
            ),
    {
        proof {
            use_type_invariant(self);
            crate::parameters::lemma_gesture_sets();
            crate::parameters::any::lemma_parameter_values(self.0);
        }
        match &self.0 {
            AnyParameter::Cutoff { inner } if inner.gestures & PARAMETER_GESTURE_DOUBLE_CLICK != 0 => {
                match inner.as_clickable() {
                    Some(c) => c.on_double_click(),
                    None => None,
                }
            },
            AnyParameter::Center { inner } if inner.gestures & PARAMETER_GESTURE_DOUBLE_CLICK != 0 => {
                match inner.as_clickable() {
                    Some(c) => c.on_double_click(),
                    None => None,
                }
            },
            AnyParameter::Angle { inner } if inner.gestures & PARAMETER_GESTURE_DOUBLE_CLICK != 0 => {
                match inner.as_clickable() {
                    Some(c) => c.on_double_click(),
                    None => None,
                }
            },
            AnyParameter::Gain { inner } if inner.gestures & PARAMETER_GESTURE_DOUBLE_CLICK != 0 => {
                match inner.as_clickable() {
                    Some(c) => c.on_double_click(),
                    None => None,
                }
            },
            AnyParameter::XFeed { inner } if inner.gestures & PARAMETER_GESTURE_DOUBLE_CLICK != 0 => {
                match inner.as_clickable() {
                    Some(c) => c.on_double_click(),
                    None => None,
                }
            },
            AnyParameter::XFeedSlope { inner } if inner.gestures & PARAMETER_GESTURE_DOUBLE_CLICK
                != 0 => {
                match inner.as_clickable() {
                    Some(c) => c.on_double_click(),
                    None => None,
                }
            },
            AnyParameter::Bs2bLowShelf { inner } if inner.gestures & PARAMETER_GESTURE_DOUBLE_CLICK
                != 0 => {
                match inner.as_clickable() {
                    Some(c) => c.on_double_click(),
                    None => None,
                }
            },
            AnyParameter::CalibrationMode { inner } if inner.gestures
                & PARAMETER_GESTURE_DOUBLE_CLICK != 0 => {
                match inner.as_clickable() {
                    Some(c) => c.on_double_click(),
                    None => None,
                }
            },
            _ => None,
        }
    }
}

/// A drag gesture on a continuous parameter, with the data `G` that the
/// caller recorded when the drag started (pointer position, start value).
pub struct ActiveDrag<G> {
    param: AnyParameter,
    start: G,
}

impl<G> ActiveDrag<G> {
    /// The parameter that is dragged.
    pub closed spec fn parameter(self) -> AnyParameter {
        self.param
    }

    /// The data recorded when the drag started.
    pub closed spec fn spec_start(self) -> G {
        self.start
    }

    #[verifier::type_invariant]
    closed spec fn draggable(self) -> bool {
        &&& self.param.defined()
        &&& self.param.spec_is_range()
        &&& has_gesture(self.param.spec_gestures(), PARAMETER_GESTURE_DRAG)
    }

    /// Starts a drag on the parameter `index`: `None` if there is no such
    /// parameter, if it is a stepped parameter (a dropdown), or if it cannot be
    /// dragged.
    pub fn from_index(index: usize, start: G) -> (r: Option<Self>)
        ensures
            r is Some <==> is_parameter_id(index) && parameter_is_range(index) && has_gesture(
                parameter_gestures(index),
                PARAMETER_GESTURE_DRAG,
            ),
            r matches Some(d) ==> {
                &&& d.parameter().defined()
                &&& d.parameter().spec_id() == index
                &&& d.spec_start() == start
            },
    {
        let param = match AnyParameter::try_from(index) {
            Ok(p) => p,
            Err(()) => return None,
        };
        let is_draggable = match &param {
            AnyParameter::Cutoff { inner } => inner.as_draggable().is_some(),
            AnyParameter::Center { inner } => inner.as_draggable().is_some(),
            AnyParameter::Angle { inner } => inner.as_draggable().is_some(),
            AnyParameter::Gain { inner } => inner.as_draggable().is_some(),
            AnyParameter::XFeed { inner } => inner.as_draggable().is_some(),
            AnyParameter::XFeedSlope { inner } => inner.as_draggable().is_some(),
            AnyParameter::Bs2bLowShelf { inner } => inner.as_draggable().is_some(),
            AnyParameter::CalibrationMode { .. }
            | AnyParameter::LRSwap { .. }
            | AnyParameter::Solo { .. }
            | AnyParameter::Phase { .. } => false,
        };
        if !is_draggable {
            return None;
        }
        Some(Self { param, start })
    }

    /// The ID of the dragged parameter.
    pub fn param_id(&self) -> (id: usize)
        ensures
            id == self.parameter().spec_id(),
    {
        match &self.param {
            AnyParameter::Cutoff { inner } => inner.id,
            AnyParameter::Center { inner } => inner.id,
            AnyParameter::Angle { inner } => inner.id,
            AnyParameter::Gain { inner } => inner.id,
            AnyParameter::XFeed { inner } => inner.id,
            AnyParameter::XFeedSlope { inner } => inner.id,
            AnyParameter::Bs2bLowShelf { inner } => inner.id,
            AnyParameter::CalibrationMode { inner } => inner.id,
            AnyParameter::LRSwap { inner } => inner.id,
            AnyParameter::Solo { inner } => inner.id,
            AnyParameter::Phase { inner } => inner.id,
        }
    }

    /// The data recorded when the drag started.
    pub fn start(&self) -> (s: &G)
        ensures
            *s == self.spec_start(),
    {
        &self.start
    }

    /// The range within which the drag moves the parameter.
    pub fn drag_range(&self) -> (r: Range)
        ensures
            r == self.parameter().spec_range(),
            r == parameter_range(self.parameter().spec_id()),
            r.well_formed(),
    {
        proof {
            use_type_invariant(self);
            crate::parameters::any::lemma_registered_parameter(self.param);
            crate::parameters::any::lemma_parameter_values(self.param);
        }
        match &self.param {
            AnyParameter::Cutoff { inner } => inner.behave,
            AnyParameter::Center { inner } => inner.behave,
            AnyParameter::Angle { inner } => inner.behave,
            AnyParameter::Gain { inner } => inner.behave,
            AnyParameter::XFeed { inner } => inner.behave,
            AnyParameter::XFeedSlope { inner } => inner.behave,
            AnyParameter::Bs2bLowShelf { inner } => inner.behave,
            _ => Range { min: 0, max: 0, def: 0 },
        }
    }
}

} // verus!

verus! {

/// A double click proposes a value that its parameter can take: within the
/// range of a continuous parameter, and one of the options (in thousandths)
/// of a stepped one. (An [`ActiveClick`]'s parameter meets the requirements,
/// as [`ActiveClick::on_double_click`] states.)
pub proof fn lemma_double_click_value_valid(p: AnyParameter)
    requires
        p.defined(),
        has_gesture(p.spec_gestures(), PARAMETER_GESTURE_DOUBLE_CLICK),
    ensures
        p.spec_is_range() ==> p.spec_range().min <= p.spec_default() <= p.spec_range().max,
        p matches AnyParameter::CalibrationMode { inner } ==> inner.behave.options@.contains(
            (p.spec_default() / 1000) as u8,
        ) && p.spec_default() % 1000 == 0,
{
    crate::parameters::any::lemma_registered_parameter(p);
}

} // verus!
